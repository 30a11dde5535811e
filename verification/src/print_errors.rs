//! Errors written out for people: the error, and the function that it is
//! about.

use vstd::prelude::*;
use vstd::string::*;
use crate::function::{Function, FunctionView};
use crate::isa::TargetIsa;
use crate::result::CodegenError;
use crate::verifier_errors::{AnyEntity, VerifierError};
use crate::write::{function_text, inst_text, recipe_names};

verus! {

/// What stands between a verifier error and the text of the function: for
/// an error at an instruction, the instruction on a line of its own and an
/// empty line; for any other, the end of the line.
pub open spec fn location_text(
    func: FunctionView,
    names: Option<Seq<Seq<char>>>,
    location: AnyEntity,
) -> Seq<char> {
    match location {
        AnyEntity::Inst(inst) => "\n"@ + location.text() + ": "@ + inst_text(func, names, inst)
            + "\n\n"@,
        _ => "\n"@,
    }
}

/// A verifier error in full: the error, the instruction at which it shows
/// if it shows at one, and the text of the function.
pub open spec fn verifier_error_text(
    func: FunctionView,
    names: Option<Seq<Seq<char>>>,
    err: &VerifierError,
) -> Seq<char> {
    err.text() + location_text(func, names, err.location) + function_text(func, names)
}

/// Any error in full: a verifier error with the function that it is about,
/// any other error in its one line.
pub open spec fn error_text(func: FunctionView, names: Option<Seq<Seq<char>>>, err: &CodegenError) -> Seq<
    char,
> {
    match err {
        CodegenError::Verifier(e) => verifier_error_text(func, names, e),
        _ => err.text(),
    }
}

/// Writes out a verifier error with the function that it is about, in the
/// target's terms if `isa` is one.
pub fn pretty_verifier_error<I: TargetIsa>(func: &Function, isa: Option<&I>, err: &VerifierError) -> (r:
    String)
    ensures
        r@ == verifier_error_text(func@, recipe_names(isa), err),
{
    let mut msg = err.to_string();
    match err.location {
        AnyEntity::Inst(inst) => {
            msg.append("\n");
            err.location.write(&mut msg);
            msg.append(": ");
            let shown = func.display_inst(inst, isa);
            msg.append(shown.as_str());
            msg.append("\n\n");
        },
        _ => {
            msg.append("\n");
        },
    }
    assert(msg@ =~= err.text() + location_text(func@, recipe_names(isa), err.location));
    let dump = func.display(isa).to_string();
    msg.append(dump.as_str());
    msg
}

/// Writes out an error: a verifier error with the function that it is
/// about, any other error in its one line.
pub fn pretty_error<I: TargetIsa>(func: &Function, isa: Option<&I>, err: CodegenError) -> (r: String)
    ensures
        r@ == error_text(func@, recipe_names(isa), &err),
{
    match &err {
        CodegenError::Verifier(e) => pretty_verifier_error(func, isa, e),
        _ => err.to_string(),
    }
}

} // verus!
