//! Jump tables: the targets of a multi-way branch, by position.

use vstd::prelude::*;
use crate::entities::Ebb;

verus! {

/// The entries of one jump table.
///
/// An entry either names the block to branch to or is a placeholder, which
/// stands for "no target": a branch that selects it falls through.
pub struct JumpTableData {
    table: Vec<Option<Ebb>>,
}

impl View for JumpTableData {
    type V = Seq<Option<Ebb>>;

    /// The entries, by position.
    closed spec fn view(&self) -> Seq<Option<Ebb>> {
        self.table@
    }
}

impl JumpTableData {
    /// A table without entries.
    pub fn new() -> (r: Self)
        ensures
            r@ == Seq::<Option<Ebb>>::empty(),
    {
        JumpTableData { table: Vec::new() }
    }

    /// A table of `len` placeholder entries.
    pub fn with_len(len: usize) -> (r: Self)
        ensures
            r@ == Seq::new(len as nat, |i: int| None::<Ebb>),
    {
        let mut table: Vec<Option<Ebb>> = Vec::new();
        while table.len() < len
            invariant
                table@.len() <= len,
                table@ =~= Seq::new(table@.len(), |i: int| None::<Ebb>),
            decreases len - table@.len(),
        {
            table.push(None);
        }
        assert(table@ =~= Seq::new(len as nat, |i: int| None::<Ebb>));
        JumpTableData { table }
    }

    /// The number of entries, placeholders included.
    pub fn len(&self) -> (r: usize)
        ensures
            r == self@.len(),
    {
        self.table.len()
    }

    /// Appends an entry that branches to `dest`.
    pub fn push_entry(&mut self, dest: Ebb)
        ensures
            final(self)@ == old(self)@.push(Some(dest)),
    {
        self.table.push(Some(dest));
    }

    /// Makes the entry at `idx` branch to `dest`. The table keeps its
    /// length, and every other entry stays as it is.
    pub fn set_entry(&mut self, idx: usize, dest: Ebb)
        requires
            idx < old(self)@.len(),
        ensures
            final(self)@ == old(self)@.update(idx as int, Some(dest)),
    {
        self.table[idx] = Some(dest);
    }

    /// Turns the entry at `idx` back into a placeholder.
    pub fn clear_entry(&mut self, idx: usize)
        requires
            idx < old(self)@.len(),
        ensures
            final(self)@ == old(self)@.update(idx as int, None),
    {
        self.table[idx] = None;
    }

    /// The block that the entry at `idx` branches to: none for a
    /// placeholder, and none past the end of the table.
    pub fn get_entry(&self, idx: usize) -> (r: Option<Ebb>)
        ensures
            r == (if idx < self@.len() { self@[idx as int] } else { None }),
    {
        if idx < self.table.len() {
            self.table[idx]
        } else {
            None
        }
    }

    /// Whether some entry branches to `ebb`.
    pub fn branches_to(&self, ebb: Ebb) -> (r: bool)
        ensures
            r == self@.contains(Some(ebb)),
    {
        let mut i: usize = 0;
        while i < self.table.len()
            invariant
                i <= self.table@.len(),
                forall|j: int| 0 <= j < i ==> self.table@[j] != Some(ebb),
            decreases self.table@.len() - i,
        {
            match self.table[i] {
                Some(target) => {
                    if target == ebb {
                        assert(self.table@[i as int] == Some(ebb));
                        return true;
                    }
                },
                None => {},
            }
            i = i + 1;
        }
        false
    }
}

impl Clone for JumpTableData {
    fn clone(&self) -> (r: Self)
        ensures
            r@ == self@,
    {
        let r = JumpTableData { table: self.table.clone() };
        assert(r.table@ =~= self.table@);
        r
    }
}

/// Setting an entry is read back at its position, and changes the entry at
/// no other.
pub proof fn lemma_set_entry_roundtrip(before: Seq<Option<Ebb>>, idx: int, dest: Ebb, other: int)
    requires
        0 <= idx < before.len(),
    ensures
        before.update(idx, Some(dest)).len() == before.len(),
        before.update(idx, Some(dest))[idx] == Some(dest),
        0 <= other < before.len() && other != idx ==> before.update(idx, Some(dest))[other]
            == before[other],
{
}

} // verus!
