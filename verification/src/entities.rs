//! Typed handles for the entities that a function owns.
//!
//! Every kind of entity has a handle type of its own, so that a stack slot
//! can never be mistaken for a heap. A handle is a small number: the position
//! of the entity in the table that holds it.

use vstd::prelude::*;

verus! {

/// A typed handle into one of a function's tables.
pub trait EntityRef: Copy + Sized {
    /// The position in its table that the handle stands for.
    spec fn position(self) -> nat;

    /// Two handles of one kind with the same position are the same handle.
    proof fn position_determines(a: Self, b: Self)
        requires
            a.position() == b.position(),
        ensures
            a == b,
    ;

    /// The handle for the entity at position `index`. The largest 32-bit
    /// number is kept free, so that an absent handle can be packed into the
    /// same space.
    fn new(index: usize) -> (r: Self)
        requires
            index < u32::MAX,
        ensures
            r.position() == index,
    ;

    /// The position that this handle stands for.
    fn index(self) -> (r: usize)
        ensures
            r == self.position(),
    ;
}

/// An extended basic block of a function.
#[derive(Clone, Copy, Debug, PartialEq, Eq, Structural, Hash)]
pub struct Ebb(u32);

impl EntityRef for Ebb {
    closed spec fn position(self) -> nat {
        self.0 as nat
    }

    proof fn position_determines(a: Self, b: Self) {
    }

    fn new(index: usize) -> (r: Self) {
        Ebb(index as u32)
    }

    fn index(self) -> (r: usize) {
        self.0 as usize
    }
}

/// An instruction of a function.
#[derive(Clone, Copy, Debug, PartialEq, Eq, Structural, Hash)]
pub struct Inst(u32);

impl EntityRef for Inst {
    closed spec fn position(self) -> nat {
        self.0 as nat
    }

    proof fn position_determines(a: Self, b: Self) {
    }

    fn new(index: usize) -> (r: Self) {
        Inst(index as u32)
    }

    fn index(self) -> (r: usize) {
        self.0 as usize
    }
}

/// An SSA value: a block parameter or an instruction result.
#[derive(Clone, Copy, Debug, PartialEq, Eq, Structural, Hash)]
pub struct Value(u32);

impl EntityRef for Value {
    closed spec fn position(self) -> nat {
        self.0 as nat
    }

    proof fn position_determines(a: Self, b: Self) {
    }

    fn new(index: usize) -> (r: Self) {
        Value(index as u32)
    }

    fn index(self) -> (r: usize) {
        self.0 as usize
    }
}

/// A stack slot declared in a function's preamble.
#[derive(Clone, Copy, Debug, PartialEq, Eq, Structural, Hash)]
pub struct StackSlot(u32);

impl EntityRef for StackSlot {
    closed spec fn position(self) -> nat {
        self.0 as nat
    }

    proof fn position_determines(a: Self, b: Self) {
    }

    fn new(index: usize) -> (r: Self) {
        StackSlot(index as u32)
    }

    fn index(self) -> (r: usize) {
        self.0 as usize
    }
}

/// A global variable declared in a function's preamble.
#[derive(Clone, Copy, Debug, PartialEq, Eq, Structural, Hash)]
pub struct GlobalVar(u32);

impl EntityRef for GlobalVar {
    closed spec fn position(self) -> nat {
        self.0 as nat
    }

    proof fn position_determines(a: Self, b: Self) {
    }

    fn new(index: usize) -> (r: Self) {
        GlobalVar(index as u32)
    }

    fn index(self) -> (r: usize) {
        self.0 as usize
    }
}

/// A heap declared in a function's preamble.
#[derive(Clone, Copy, Debug, PartialEq, Eq, Structural, Hash)]
pub struct Heap(u32);

impl EntityRef for Heap {
    closed spec fn position(self) -> nat {
        self.0 as nat
    }

    proof fn position_determines(a: Self, b: Self) {
    }

    fn new(index: usize) -> (r: Self) {
        Heap(index as u32)
    }

    fn index(self) -> (r: usize) {
        self.0 as usize
    }
}

/// A jump table declared in a function's preamble.
#[derive(Clone, Copy, Debug, PartialEq, Eq, Structural, Hash)]
pub struct JumpTable(u32);

impl EntityRef for JumpTable {
    closed spec fn position(self) -> nat {
        self.0 as nat
    }

    proof fn position_determines(a: Self, b: Self) {
    }

    fn new(index: usize) -> (r: Self) {
        JumpTable(index as u32)
    }

    fn index(self) -> (r: usize) {
        self.0 as usize
    }
}

/// A signature imported for indirect calls and for function imports.
#[derive(Clone, Copy, Debug, PartialEq, Eq, Structural, Hash)]
pub struct SigRef(u32);

impl EntityRef for SigRef {
    closed spec fn position(self) -> nat {
        self.0 as nat
    }

    proof fn position_determines(a: Self, b: Self) {
    }

    fn new(index: usize) -> (r: Self) {
        SigRef(index as u32)
    }

    fn index(self) -> (r: usize) {
        self.0 as usize
    }
}

/// An external function imported by a function.
#[derive(Clone, Copy, Debug, PartialEq, Eq, Structural, Hash)]
pub struct FuncRef(u32);

impl EntityRef for FuncRef {
    closed spec fn position(self) -> nat {
        self.0 as nat
    }

    proof fn position_determines(a: Self, b: Self) {
    }

    fn new(index: usize) -> (r: Self) {
        FuncRef(index as u32)
    }

    fn index(self) -> (r: usize) {
        self.0 as usize
    }
}

} // verus!
