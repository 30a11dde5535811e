//! What the verifier reports when it finds a function inconsistent.

use vstd::prelude::*;
use vstd::string::*;
use crate::entities::{Ebb, EntityRef, FuncRef, GlobalVar, Heap, Inst, JumpTable, SigRef, StackSlot, Value};
use crate::write::{decimal, write_decimal};

verus! {

/// Anything of a function that an error can be about.
#[derive(Clone, Copy, Debug, PartialEq, Eq, Structural, Hash)]
pub enum AnyEntity {
    /// The function as a whole.
    Function,
    Ebb(Ebb),
    Inst(Inst),
    Value(Value),
    StackSlot(StackSlot),
    GlobalVar(GlobalVar),
    JumpTable(JumpTable),
    FuncRef(FuncRef),
    SigRef(SigRef),
    Heap(Heap),
}

impl AnyEntity {
    /// The name by which the entity is written.
    pub open spec fn text(self) -> Seq<char> {
        match self {
            AnyEntity::Function => "function"@,
            AnyEntity::Ebb(e) => "ebb"@ + decimal(e.position()),
            AnyEntity::Inst(e) => "inst"@ + decimal(e.position()),
            AnyEntity::Value(e) => "v"@ + decimal(e.position()),
            AnyEntity::StackSlot(e) => "ss"@ + decimal(e.position()),
            AnyEntity::GlobalVar(e) => "gv"@ + decimal(e.position()),
            AnyEntity::JumpTable(e) => "jt"@ + decimal(e.position()),
            AnyEntity::FuncRef(e) => "fn"@ + decimal(e.position()),
            AnyEntity::SigRef(e) => "sig"@ + decimal(e.position()),
            AnyEntity::Heap(e) => "heap"@ + decimal(e.position()),
        }
    }

    /// Appends the name by which the entity is written.
    pub fn write(&self, out: &mut String)
        ensures
            final(out)@ == old(out)@ + self.text(),
    {
        match *self {
            AnyEntity::Function => {
                out.append("function");
            },
            AnyEntity::Ebb(e) => {
                out.append("ebb");
                write_decimal(out, e.index() as u64);
            },
            AnyEntity::Inst(e) => {
                out.append("inst");
                write_decimal(out, e.index() as u64);
            },
            AnyEntity::Value(e) => {
                out.append("v");
                write_decimal(out, e.index() as u64);
            },
            AnyEntity::StackSlot(e) => {
                out.append("ss");
                write_decimal(out, e.index() as u64);
            },
            AnyEntity::GlobalVar(e) => {
                out.append("gv");
                write_decimal(out, e.index() as u64);
            },
            AnyEntity::JumpTable(e) => {
                out.append("jt");
                write_decimal(out, e.index() as u64);
            },
            AnyEntity::FuncRef(e) => {
                out.append("fn");
                write_decimal(out, e.index() as u64);
            },
            AnyEntity::SigRef(e) => {
                out.append("sig");
                write_decimal(out, e.index() as u64);
            },
            AnyEntity::Heap(e) => {
                out.append("heap");
                write_decimal(out, e.index() as u64);
            },
        }
        assert(out@ =~= old(out)@ + self.text());
    }
}

/// An inconsistency that the verifier found: where, and what.
pub struct VerifierError {
    /// The entity at which the inconsistency shows.
    pub location: AnyEntity,
    /// What is wrong, for people to read.
    pub message: String,
}

impl VerifierError {
    /// The error in one line: the entity, a colon, and the message.
    pub open spec fn text(&self) -> Seq<char> {
        self.location.text() + ": "@ + self.message@
    }

    /// The error in one line: the entity, a colon, and the message.
    pub fn to_string(&self) -> (r: String)
        ensures
            r@ == self.text(),
    {
        let mut out = String::new();
        self.location.write(&mut out);
        out.append(": ");
        out.append(self.message.as_str());
        assert(out@ =~= self.text());
        out
    }
}

} // verus!
