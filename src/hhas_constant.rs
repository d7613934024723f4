use vstd::prelude::*;

use crate::instr::Instr;
use crate::synth::TypedValue;

verus! {

/// What the constant folder made of a constant's initializer: a value, or
/// (where it could not fold it) the initializer lowered to instructions.
#[derive(Debug)]
pub enum ConstInit {
    Folded(TypedValue),
    Lowered(Vec<Instr>),
}

/// A class constant as declared.
#[derive(Debug)]
pub struct ConstDecl {
    pub name: String,
    pub is_abstract: bool,
    pub init: Option<ConstInit>,
}

/// An emitted constant: a folded value or an initializer, never both.
#[derive(Debug, PartialEq, Eq)]
pub struct HhasConstant {
    pub name: String,
    pub value: Option<TypedValue>,
    pub initializer_instrs: Option<Vec<Instr>>,
    pub is_abstract: bool,
}

pub open spec fn constant_matches(r: HhasConstant, name: String, is_abstract: bool, init: Option<ConstInit>) -> bool {
    &&& r.name == name
    &&& r.is_abstract == is_abstract
    &&& if is_abstract {
        r.value is None && r.initializer_instrs is None
    } else {
        match init {
            None => r.value is None && r.initializer_instrs is None,
            Some(ConstInit::Folded(v)) => r.value == Some(v) && r.initializer_instrs is None,
            Some(ConstInit::Lowered(code)) => r.value is None && r.initializer_instrs == Some(code),
        }
    }
}

impl HhasConstant {
    /// A folded value or an initializer, never both.
    pub open spec fn wf(&self) -> bool {
        !(self.value is Some && self.initializer_instrs is Some)
    }
}

/// The record of a constant. An abstract constant carries neither a value
/// nor an initializer.
pub fn from_ast(name: String, is_abstract: bool, init: Option<ConstInit>) -> (r: HhasConstant)
    ensures
        constant_matches(r, name, is_abstract, init),
        r.wf(),
{
    let (value, initializer_instrs) = if is_abstract {
        (None, None)
    } else {
        match init {
            None => (None, None),
            Some(ConstInit::Folded(v)) => (Some(v), None),
            Some(ConstInit::Lowered(code)) => (None, Some(code)),
        }
    };
    HhasConstant { name, value, initializer_instrs, is_abstract }
}

} // verus!
