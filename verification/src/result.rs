//! The ways in which compiling a function can fail.

use vstd::prelude::*;
use vstd::string::*;
use crate::verifier_errors::VerifierError;

verus! {

/// Why a function was not compiled.
pub enum CodegenError {
    /// The input is not a function that can be compiled.
    InvalidInput,
    /// The verifier found the function inconsistent.
    Verifier(VerifierError),
    /// The function is larger than this implementation can handle.
    ImplLimitExceeded,
    /// The code of the function does not fit the target's limits.
    CodeTooLarge,
}

impl CodegenError {
    /// The error in one line.
    pub open spec fn text(&self) -> Seq<char> {
        match self {
            CodegenError::InvalidInput => "Invalid input code"@,
            CodegenError::Verifier(e) => "Verifier error: "@ + e.text(),
            CodegenError::ImplLimitExceeded => "Implementation limit exceeded"@,
            CodegenError::CodeTooLarge => "Code for function is too large"@,
        }
    }

    /// The error in one line.
    pub fn to_string(&self) -> (r: String)
        ensures
            r@ == self.text(),
    {
        match self {
            CodegenError::InvalidInput => String::from_str("Invalid input code"),
            CodegenError::Verifier(e) => {
                let mut out = String::from_str("Verifier error: ");
                let line = e.to_string();
                out.append(line.as_str());
                out
            },
            CodegenError::ImplLimitExceeded => String::from_str("Implementation limit exceeded"),
            CodegenError::CodeTooLarge => String::from_str("Code for function is too large"),
        }
    }
}

} // verus!
