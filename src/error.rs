use vstd::prelude::*;

use crate::instr::{FatalOp, Pos};

verus! {

/// Why lowering a declaration stopped.
#[derive(Debug, PartialEq, Eq)]
pub enum EmitError {
    /// A compile-time fatal of the given kind, at a source position.
    Fatal(FatalOp, Pos, String),
    /// An internal invariant was broken: a defect earlier in the pipeline.
    Unrecoverable(String),
}

pub fn raise_fatal_parse(pos: &Pos, message: String) -> (r: EmitError)
    ensures
        r == EmitError::Fatal(FatalOp::Parse, *pos, message),
{
    EmitError::Fatal(FatalOp::Parse, *pos, message)
}

pub fn raise_fatal_runtime(pos: &Pos, message: String) -> (r: EmitError)
    ensures
        r == EmitError::Fatal(FatalOp::Runtime, *pos, message),
{
    EmitError::Fatal(FatalOp::Runtime, *pos, message)
}

pub fn unrecoverable(message: &str) -> (r: EmitError)
    ensures
        r is Unrecoverable,
{
    EmitError::Unrecoverable(message.to_owned())
}

} // verus!
