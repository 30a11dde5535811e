//! Tables that are addressed by typed handles.
//!
//! A `PrimaryMap` owns its entities: a handle comes into being when a value
//! is pushed, and stays good until the table is cleared. An `EntityMap`
//! attaches a value to handles that another table made, and answers with a
//! default for every handle that has not been assigned.

use vstd::prelude::*;
use crate::entities::EntityRef;

verus! {

/// An append-only table that hands out the handle of each value pushed.
pub struct PrimaryMap<K: EntityRef, V> {
    elems: Vec<V>,
    unused: core::marker::PhantomData<K>,
}

impl<K: EntityRef, V> View for PrimaryMap<K, V> {
    type V = Seq<V>;

    /// The stored values, in the order in which they were pushed.
    closed spec fn view(&self) -> Seq<V> {
        self.elems@
    }
}

impl<K: EntityRef, V> PrimaryMap<K, V> {
    /// Whether `k` names a value of this table.
    pub open spec fn has(&self, k: K) -> bool {
        k.position() < self@.len()
    }

    /// The value that `k` names.
    pub open spec fn at(&self, k: K) -> V
        recommends
            self.has(k),
    {
        self@[k.position() as int]
    }

    /// A table with no values.
    pub fn new() -> (r: Self)
        ensures
            r@ == Seq::<V>::empty(),
    {
        PrimaryMap { elems: Vec::new(), unused: core::marker::PhantomData }
    }

    /// Whether `k` names a value of this table.
    pub fn is_valid(&self, k: K) -> (r: bool)
        ensures
            r == self.has(k),
    {
        k.index() < self.elems.len()
    }

    /// The number of values pushed since the table was made or last cleared.
    pub fn len(&self) -> (r: usize)
        ensures
            r == self@.len(),
    {
        self.elems.len()
    }

    /// Whether the table holds no value.
    pub fn is_empty(&self) -> (r: bool)
        ensures
            r == (self@.len() == 0),
    {
        self.elems.len() == 0
    }

    /// Removes every value. Handles made before the call name nothing
    /// afterwards, until new values take their positions.
    pub fn clear(&mut self)
        ensures
            final(self)@ == Seq::<V>::empty(),
    {
        self.elems.clear();
    }

    /// The handle that the next `push` will return.
    pub fn next_key(&self) -> (k: K)
        requires
            self@.len() < u32::MAX,
        ensures
            k.position() == self@.len(),
    {
        K::new(self.elems.len())
    }

    /// Appends `v` and returns its handle. Nothing stored before moves.
    pub fn push(&mut self, v: V) -> (k: K)
        requires
            old(self)@.len() < u32::MAX,
        ensures
            final(self)@ == old(self)@.push(v),
            k.position() == old(self)@.len(),
    {
        let k = K::new(self.elems.len());
        self.elems.push(v);
        k
    }

    /// The stored values, in the order of their handles.
    pub fn values(&self) -> (r: &[V])
        ensures
            r@ == self@,
    {
        self.elems.as_slice()
    }

    /// The value that `k` names, if it names one.
    pub fn get(&self, k: K) -> (r: Option<&V>)
        ensures
            r == (if self.has(k) { Some(&self.at(k)) } else { None }),
    {
        let i = k.index();
        if i < self.elems.len() {
            Some(&self.elems[i])
        } else {
            None
        }
    }

    /// The value that `k` names.
    pub fn index(&self, k: K) -> (r: &V)
        requires
            self.has(k),
        ensures
            *r == self.at(k),
    {
        &self.elems[k.index()]
    }

    /// The value that `k` names, for changing it in place. No other value
    /// of the table changes.
    pub fn index_mut(&mut self, k: K) -> (r: &mut V)
        requires
            old(self).has(k),
        ensures
            *r == old(self).at(k),
            final(self)@ == old(self)@.update(k.position() as int, *final(r)),
    {
        let i = k.index();
        &mut self.elems[i]
    }
}

impl<K: EntityRef, V: Clone> Clone for PrimaryMap<K, V> {
    /// A table with a copy of each value at the same position.
    fn clone(&self) -> (r: Self)
        ensures
            r@.len() == self@.len(),
            forall|i: int| 0 <= i < self@.len() ==> cloned::<V>(#[trigger] self@[i], r@[i]),
    {
        PrimaryMap { elems: self.elems.clone(), unused: core::marker::PhantomData }
    }
}

/// `s`, made at least `n` long by appending copies of `d`.
pub open spec fn padded<V>(s: Seq<V>, n: nat, d: V) -> Seq<V> {
    if n <= s.len() {
        s
    } else {
        s + Seq::new((n - s.len()) as nat, |i: int| d)
    }
}

/// A kind of value with one value that means "not assigned".
pub trait DefaultValue: Copy + Sized {
    /// The value of a handle to which nothing was assigned.
    spec fn default_value() -> Self;

    /// The value of a handle to which nothing was assigned.
    fn make_default() -> (r: Self)
        ensures
            r == Self::default_value(),
    ;
}

impl DefaultValue for u32 {
    open spec fn default_value() -> u32 {
        0
    }

    fn make_default() -> (r: u32) {
        0
    }
}

/// A table of values attached to the handles of another table.
///
/// Every handle has a value: the default of its kind, until one is assigned
/// to it. The table stores values up to the largest handle that was
/// assigned.
pub struct EntityMap<K: EntityRef, V: DefaultValue> {
    elems: Vec<V>,
    unused: core::marker::PhantomData<K>,
}

/// The value that a table with the stored values `elems` attaches to `k`.
pub open spec fn value_at<K: EntityRef, V: DefaultValue>(elems: Seq<V>, k: K) -> V {
    if k.position() < elems.len() {
        elems[k.position() as int]
    } else {
        V::default_value()
    }
}

impl<K: EntityRef, V: DefaultValue> View for EntityMap<K, V> {
    type V = Seq<V>;

    /// The stored values, by position. Positions past the end hold the
    /// default.
    closed spec fn view(&self) -> Seq<V> {
        self.elems@
    }
}

impl<K: EntityRef, V: DefaultValue> EntityMap<K, V> {
    /// A table in which every handle has the default.
    pub fn new() -> (r: Self)
        ensures
            r@ == Seq::<V>::empty(),
    {
        EntityMap { elems: Vec::new(), unused: core::marker::PhantomData }
    }

    /// The number of positions stored.
    pub fn len(&self) -> (r: usize)
        ensures
            r == self@.len(),
    {
        self.elems.len()
    }

    /// Whether nothing has been assigned since the table was made or last
    /// cleared.
    pub fn is_empty(&self) -> (r: bool)
        ensures
            r == (self@.len() == 0),
    {
        self.elems.len() == 0
    }

    /// Forgets every assignment.
    pub fn clear(&mut self)
        ensures
            final(self)@ == Seq::<V>::empty(),
    {
        self.elems.clear();
    }

    /// The value attached to `k`: the one assigned last, or the default.
    pub fn get(&self, k: K) -> (r: V)
        ensures
            r == value_at(self@, k),
    {
        let i = k.index();
        if i < self.elems.len() {
            self.elems[i]
        } else {
            V::make_default()
        }
    }

    /// Makes the table store at least `n` positions, the new ones holding
    /// the default. No handle changes its value.
    pub fn resize(&mut self, n: usize)
        ensures
            final(self)@ == padded(old(self)@, n as nat, V::default_value()),
    {
        while self.elems.len() < n
            invariant
                old(self)@.len() <= self.elems@.len(),
                self.elems@.len() <= n || self.elems@ == old(self)@,
                self.elems@ =~= padded(old(self)@, self.elems@.len(), V::default_value()),
            decreases n - self.elems@.len(),
        {
            let d = V::make_default();
            self.elems.push(d);
        }
        assert(self.elems@ =~= padded(old(self)@, n as nat, V::default_value()));
    }

    /// Attaches `v` to `k`. Every other handle keeps its value.
    pub fn set(&mut self, k: K, v: V)
        ensures
            final(self)@ == padded(old(self)@, k.position() + 1, V::default_value()).update(
                k.position() as int,
                v,
            ),
    {
        let i = k.index();
        while self.elems.len() <= i
            invariant
                old(self)@.len() <= self.elems@.len(),
                self.elems@.len() <= i + 1 || self.elems@ == old(self)@,
                self.elems@ =~= padded(old(self)@, self.elems@.len(), V::default_value()),
            decreases i + 1 - self.elems@.len(),
        {
            let d = V::make_default();
            self.elems.push(d);
        }
        assert(self.elems@ =~= padded(old(self)@, (i + 1) as nat, V::default_value()));
        self.elems[i] = v;
    }
}

impl<K: EntityRef, V: DefaultValue> Clone for EntityMap<K, V> {
    /// A table that attaches the same value to every handle.
    fn clone(&self) -> (r: Self)
        ensures
            r@ == self@,
    {
        let mut elems: Vec<V> = Vec::new();
        let mut i: usize = 0;
        while i < self.elems.len()
            invariant
                i <= self.elems@.len(),
                elems@ == self.elems@.subrange(0, i as int),
            decreases self.elems@.len() - i,
        {
            let v = self.elems[i];
            elems.push(v);
            i = i + 1;
            assert(elems@ =~= self.elems@.subrange(0, i as int));
        }
        assert(elems@ =~= self.elems@);
        EntityMap { elems, unused: core::marker::PhantomData }
    }
}

/// Assigning to a handle is read back at that handle, and at no other.
pub proof fn lemma_set_then_get<K: EntityRef, V: DefaultValue>(before: Seq<V>, k: K, v: V, other: K)
    ensures
        value_at(padded(before, k.position() + 1, V::default_value()).update(k.position() as int, v), k)
            == v,
        other != k ==> value_at(
            padded(before, k.position() + 1, V::default_value()).update(k.position() as int, v),
            other,
        ) == value_at(before, other),
{
    if other != k {
        if other.position() == k.position() {
            K::position_determines(other, k);
        }
    }
}

} // verus!
