//! Program order: which blocks a function has, in what order, and which
//! instructions stand in each.

use vstd::prelude::*;
use crate::entities::{Ebb, Inst};

verus! {

/// One block of the layout with its instructions.
pub struct EbbNode {
    pub ebb: Ebb,
    pub insts: Vec<Inst>,
}

/// One block of the layout with its instructions, as plain values.
pub struct EbbOrder {
    pub ebb: Ebb,
    pub insts: Seq<Inst>,
}

impl View for EbbNode {
    type V = EbbOrder;

    open spec fn view(&self) -> EbbOrder {
        EbbOrder { ebb: self.ebb, insts: self.insts@ }
    }
}

/// The position of the first block from `from` on that is `ebb`; the number
/// of blocks if there is none.
pub open spec fn find_from(blocks: Seq<EbbOrder>, ebb: Ebb, from: int) -> int
    decreases blocks.len() - from,
{
    if from < 0 || from >= blocks.len() {
        blocks.len() as int
    } else if blocks[from].ebb == ebb {
        from
    } else {
        find_from(blocks, ebb, from + 1)
    }
}

/// Whether `ebb` is one of `blocks`.
pub open spec fn is_inserted(blocks: Seq<EbbOrder>, ebb: Ebb) -> bool {
    find_from(blocks, ebb, 0) < blocks.len()
}

/// The instructions of `ebb` in program order; none if `ebb` is not one of
/// `blocks`.
pub open spec fn insts_of(blocks: Seq<EbbOrder>, ebb: Ebb) -> Seq<Inst> {
    if is_inserted(blocks, ebb) {
        blocks[find_from(blocks, ebb, 0)].insts
    } else {
        Seq::empty()
    }
}

/// The order of blocks and of the instructions in them.
pub struct Layout {
    blocks: Vec<EbbNode>,
}

impl View for Layout {
    type V = Seq<EbbOrder>;

    /// The blocks in program order, each with its instructions in program
    /// order.
    closed spec fn view(&self) -> Seq<EbbOrder> {
        self.blocks@.map_values(|n: EbbNode| n@)
    }
}

impl Layout {
    /// A layout without blocks.
    pub fn new() -> (r: Self)
        ensures
            r@ == Seq::<EbbOrder>::empty(),
    {
        let r = Layout { blocks: Vec::new() };
        assert(r@ =~= Seq::<EbbOrder>::empty());
        r
    }

    /// Removes every block and instruction.
    pub fn clear(&mut self)
        ensures
            final(self)@ == Seq::<EbbOrder>::empty(),
    {
        self.blocks.clear();
        assert(self@ =~= Seq::<EbbOrder>::empty());
    }

    /// The blocks in program order, each with its instructions.
    pub fn blocks(&self) -> (r: &Vec<EbbNode>)
        ensures
            r@.map_values(|n: EbbNode| n@) == self@,
    {
        &self.blocks
    }

    fn find(&self, ebb: Ebb) -> (i: usize)
        ensures
            i == find_from(self@, ebb, 0),
            i <= self.blocks@.len(),
            self@.len() == self.blocks@.len(),
    {
        let mut i: usize = 0;
        while i < self.blocks.len()
            invariant
                i <= self.blocks@.len(),
                self@.len() == self.blocks@.len(),
                find_from(self@, ebb, 0) == find_from(self@, ebb, i as int),
            decreases self.blocks@.len() - i,
        {
            assert(self@[i as int] == self.blocks@[i as int]@);
            if self.blocks[i].ebb == ebb {
                return i;
            }
            i = i + 1;
        }
        i
    }

    /// Whether `ebb` has a place in the layout.
    pub fn is_ebb_inserted(&self, ebb: Ebb) -> (r: bool)
        ensures
            r == is_inserted(self@, ebb),
    {
        self.find(ebb) < self.blocks.len()
    }

    /// Puts `ebb` after every block of the layout, without instructions.
    pub fn append_ebb(&mut self, ebb: Ebb)
        requires
            !is_inserted(old(self)@, ebb),
        ensures
            final(self)@ == old(self)@.push(EbbOrder { ebb, insts: Seq::empty() }),
    {
        self.blocks.push(EbbNode { ebb, insts: Vec::new() });
        assert(self@ =~= old(self)@.push(EbbOrder { ebb, insts: Seq::empty() }));
    }

    /// Puts `inst` after every instruction of `ebb`. No other block changes.
    pub fn append_inst(&mut self, inst: Inst, ebb: Ebb)
        requires
            is_inserted(old(self)@, ebb),
        ensures
            final(self)@ == old(self)@.update(
                find_from(old(self)@, ebb, 0),
                EbbOrder {
                    ebb: old(self)@[find_from(old(self)@, ebb, 0)].ebb,
                    insts: old(self)@[find_from(old(self)@, ebb, 0)].insts.push(inst),
                },
            ),
    {
        let i = self.find(ebb);
        assert(self@[i as int] == self.blocks@[i as int]@);
        self.blocks[i].insts.push(inst);
        assert(self@ =~= old(self)@.update(
            i as int,
            EbbOrder { ebb: old(self)@[i as int].ebb, insts: old(self)@[i as int].insts.push(inst) },
        ));
    }

    /// The block at which the function is entered: the first of the layout.
    pub fn entry_block(&self) -> (r: Option<Ebb>)
        ensures
            r == (if self@.len() > 0 { Some(self@[0].ebb) } else { None }),
    {
        if self.blocks.len() > 0 {
            assert(self@[0] == self.blocks@[0]@);
            Some(self.blocks[0].ebb)
        } else {
            None
        }
    }

    /// The instructions of `ebb` in program order; none if `ebb` has no
    /// place in the layout.
    pub fn ebb_insts(&self, ebb: Ebb) -> (r: &[Inst])
        ensures
            r@ == insts_of(self@, ebb),
    {
        let i = self.find(ebb);
        if i < self.blocks.len() {
            assert(self@[i as int] == self.blocks@[i as int]@);
            self.blocks[i].insts.as_slice()
        } else {
            let none: &[Inst] = &[];
            none
        }
    }
}

impl Clone for Layout {
    fn clone(&self) -> (r: Self)
        ensures
            r@ == self@,
    {
        let mut blocks: Vec<EbbNode> = Vec::new();
        let mut i: usize = 0;
        while i < self.blocks.len()
            invariant
                i <= self.blocks@.len(),
                blocks@.len() == i,
                forall|j: int| 0 <= j < i ==> (#[trigger] blocks@[j])@ == self.blocks@[j]@,
            decreases self.blocks@.len() - i,
        {
            let insts = self.blocks[i].insts.clone();
            assert(insts@ =~= self.blocks@[i as int].insts@);
            blocks.push(EbbNode { ebb: self.blocks[i].ebb, insts });
            i = i + 1;
        }
        let r = Layout { blocks };
        assert(r@ =~= self@);
        r
    }
}

} // verus!
