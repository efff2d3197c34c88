use crate::signature::{FunctionParameter, FunctionType};
use vstd::prelude::*;

verus! {

/// A structured diagnostic as the error-reporting collaborator consumes it:
/// a short machine code, a short label, and a full message.
#[derive(Debug)]
pub struct RuntimeError {
    pub code: String,
    pub label: String,
    pub message: String,
}

/// A failure of binding a call site's arguments to a signature.
#[derive(Debug)]
pub enum FunctionError {
    /// A required parameter had neither a positional nor a keyword value.
    NotEnoughParameter {
        missing: String,
        function_type: FunctionType,
        signature: Vec<FunctionParameter>,
    },
    /// An element iterated out of the keyword-spread value was not a string.
    ArgsValueIsNotString,
    /// The positional-spread value does not support iteration.
    ArgsArrayIsNotIterable,
    /// The keyword-spread value supports neither iteration nor key lookup.
    KWArgsDictIsNotMappable,
    /// Positional or keyword values were left over after the whole walk.
    ExtraParameter,
}

/// An error of the value layer: a structured binding failure, or a mismatch
/// found while a callee extracts its bound arguments.
#[derive(Debug)]
pub enum ValueError {
    /// Binding failed; the payload says how.
    Function(FunctionError),
    /// An extraction was asked of a bound argument of another kind than the
    /// parameter was declared with: a defect of the callee, not of the call.
    IncorrectParameterType,
    /// A bound value did not convert to the host type the callee asked for;
    /// carries the parameter's name.
    IncorrectParameterTypeNamed(String),
}

} // verus!
