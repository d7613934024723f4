use vstd::prelude::*;

use crate::instr::{Instr, Span};

verus! {

#[derive(Debug, Clone, Copy, PartialEq, Eq)]
pub enum Visibility {
    Private,
    Public,
    Protected,
    Internal,
}

/// The capabilities that calling a method requires.
#[derive(Debug, Clone, Copy, PartialEq, Eq)]
pub enum Coeffects {
    /// Whatever the declaration states, or the defaults where it states none.
    Default,
    /// No capability at all.
    Pure,
}

/// A parameter of an emitted method or function.
#[derive(Debug, PartialEq, Eq)]
pub struct Param {
    pub name: String,
    /// The type the parameter is checked against, where there is one.
    pub type_constraint: Option<String>,
}

/// An emitted body: its instructions, the named locals it declares besides
/// its parameters, and how many iterators it uses.
#[derive(Debug, PartialEq, Eq)]
pub struct Body {
    pub instrs: Vec<Instr>,
    pub decl_vars: Vec<String>,
    pub params: Vec<Param>,
    pub num_iters: u64,
    pub is_memoize_wrapper: bool,
}

/// An emitted method.
#[derive(Debug, PartialEq, Eq)]
pub struct MethodRecord {
    pub name: String,
    pub body: Body,
    pub visibility: Visibility,
    pub is_static: bool,
    pub is_abstract: bool,
    /// Debuggers may not inject code into this method.
    pub no_injection: bool,
    /// The method is the body of a closure.
    pub is_closure_body: bool,
    pub span: Span,
    pub coeffects: Coeffects,
}

} // verus!
