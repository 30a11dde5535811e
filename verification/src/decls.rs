//! What a function's preamble declares: the data behind stack slots, global
//! variables, heaps and imported functions, and the annotations that later
//! passes attach to values and instructions.

use vstd::prelude::*;
use crate::entities::{GlobalVar, SigRef, StackSlot};
use crate::entity::DefaultValue;

verus! {

/// The name of a function or of a symbol outside it, not yet resolved to an
/// address: a namespace and a number within it, both chosen by the user.
#[derive(Clone, Copy, Debug, PartialEq, Eq, Structural, Hash)]
pub struct ExternalName {
    pub namespace: u32,
    pub index: u32,
}

impl ExternalName {
    /// The name `index` in `namespace`.
    pub fn user(namespace: u32, index: u32) -> (r: Self)
        ensures
            r == (ExternalName { namespace, index }),
    {
        ExternalName { namespace, index }
    }

    /// The name that a function has before it is given one.
    pub open spec fn unnamed() -> ExternalName {
        ExternalName { namespace: 0, index: 0 }
    }
}

impl Default for ExternalName {
    fn default() -> (r: Self)
        ensures
            r == ExternalName::unnamed(),
    {
        ExternalName { namespace: 0, index: 0 }
    }
}

/// What a stack slot is used for.
#[derive(Clone, Copy, Debug, PartialEq, Eq, Structural, Hash)]
pub enum StackSlotKind {
    /// Holds a value that found no register.
    SpillSlot,
    /// Declared by the program, for stack loads and stores.
    ExplicitSlot,
    /// An argument that the caller passed on the stack.
    IncomingArg,
    /// An argument passed on the stack to a callee.
    OutgoingArg,
    /// Scratch space for the register allocator.
    EmergencySlot,
}

/// One stack slot: a piece of the frame of a fixed size.
#[derive(Clone, Copy, Debug, PartialEq, Eq, Structural, Hash)]
pub struct StackSlotData {
    pub kind: StackSlotKind,
    /// The size in bytes.
    pub size: u32,
    /// The offset from the stack pointer at the call, once the frame is laid
    /// out.
    pub offset: Option<i32>,
}

impl StackSlotData {
    /// A slot of `size` bytes whose place in the frame is not decided yet.
    pub fn new(kind: StackSlotKind, size: u32) -> (r: Self)
        ensures
            r == (StackSlotData { kind, size, offset: None }),
    {
        StackSlotData { kind, size, offset: None }
    }
}

/// Where the address of a global variable comes from.
#[derive(Clone, Copy, Debug, PartialEq, Eq, Structural, Hash)]
pub enum GlobalVarData {
    /// At a fixed offset from the context pointer of the virtual machine.
    VMContext { offset: i32 },
    /// Loaded from a fixed offset from another global variable.
    Deref { base: GlobalVar, offset: i32 },
    /// The address of a symbol, which may be preempted unless colocated.
    Sym { name: ExternalName, colocated: bool },
}

/// Where a heap begins.
#[derive(Clone, Copy, Debug, PartialEq, Eq, Structural, Hash)]
pub enum HeapBase {
    /// In the register that the target reserves for it.
    ReservedReg,
    /// At the address that a global variable holds.
    GlobalVar(GlobalVar),
}

/// How accesses to a heap are kept within bounds.
#[derive(Clone, Copy, Debug, PartialEq, Eq, Structural, Hash)]
pub enum HeapStyle {
    /// The heap may move and grow; its bound is read from a global variable.
    Dynamic { bound_gv: GlobalVar },
    /// The heap has a fixed address and a bound that never changes.
    Static { bound: u64 },
}

/// One heap: a region of memory that instructions address by offset, with
/// what is needed to check an access against its bounds.
#[derive(Clone, Copy, Debug, PartialEq, Eq, Structural, Hash)]
pub struct HeapData {
    pub base: HeapBase,
    /// The least size in bytes that the heap has at any time.
    pub min_size: u64,
    /// The size in bytes of the guard pages after the heap.
    pub guard_size: u64,
    pub style: HeapStyle,
}

/// One imported function: its name, its signature, and whether it is known
/// to be linked into the same unit.
#[derive(Clone, Copy, Debug, PartialEq, Eq, Structural, Hash)]
pub struct ExtFuncData {
    pub name: ExternalName,
    pub signature: SigRef,
    pub colocated: bool,
}

/// Where a value lives once registers are allocated.
#[derive(Clone, Copy, Debug, PartialEq, Eq, Structural, Hash)]
pub enum ValueLoc {
    /// Not decided yet.
    Unassigned,
    /// In the register unit of this number.
    Reg(u16),
    /// In a stack slot.
    Stack(StackSlot),
}

impl DefaultValue for ValueLoc {
    open spec fn default_value() -> ValueLoc {
        ValueLoc::Unassigned
    }

    fn make_default() -> (r: ValueLoc) {
        ValueLoc::Unassigned
    }
}

/// A position in the source that an instruction came from. The number is
/// the producer's own; it is kept, never read.
#[derive(Clone, Copy, Debug, PartialEq, Eq, Structural, Hash)]
pub struct SourceLoc(pub u32);

impl DefaultValue for SourceLoc {
    /// The position of an instruction that came from nowhere in particular.
    open spec fn default_value() -> SourceLoc {
        SourceLoc(0xffff_ffff)
    }

    fn make_default() -> (r: SourceLoc) {
        SourceLoc(0xffff_ffff)
    }
}

} // verus!
