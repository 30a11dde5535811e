//! The function at the heart of a code generator's intermediate
//! representation: what a function declares, its instructions and blocks,
//! their order, and what the passes of a compiler attach to them on the way
//! to machine code.
//!
//! Every entity of a function lives in a table and is named by a typed
//! handle. Tables only grow, so a handle stays good for as long as the
//! function is not cleared. The contracts speak of a function through its
//! view, which gives each table as the sequence of its entities.

pub mod decls;
pub mod dfg;
pub mod entities;
pub mod entity;
pub mod function;
pub mod isa;
pub mod jumptable;
pub mod layout;
pub mod print_errors;
pub mod result;
pub mod signature;
pub mod verifier_errors;
pub mod write;
