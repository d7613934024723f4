use vstd::prelude::*;

use crate::hint::Hint;
use crate::instr::Pos;

verus! {

/// An error that type checking reports.
#[derive(Debug, Clone, Copy, PartialEq, Eq)]
pub enum TypingError {
    /// A parameter lacks the type hint it needs, at its position.
    ExpectingTypeHint(Pos),
}

/// The errors that type checking has collected so far.
#[derive(Debug)]
pub struct TypingEnv {
    pub errors: Vec<TypingError>,
}

impl TypingEnv {
    pub fn add_error(&mut self, err: TypingError)
        ensures
            final(self).errors@ == old(self).errors@.push(err),
    {
        self.errors.push(err);
    }
}

/// A function parameter as the type checker sees it.
#[derive(Debug)]
pub struct ParamDecl {
    pub pos: Pos,
    pub type_hint: Option<Hint>,
}

/// The type a parameter has in the body: the declared type, to be
/// localized, or the unknown type witnessed at the parameter where none is
/// declared.
#[derive(Debug, PartialEq, Eq)]
pub enum ParamLocalTy<T> {
    Any(Pos),
    Localize(T),
}

/// Typing rules for function parameters.
pub struct TypingParam;

impl TypingParam {
    pub fn make_param_local_ty<T>(decl_hint: Option<T>, param: &ParamDecl) -> (r: ParamLocalTy<T>)
        ensures
            match decl_hint {
                None => r == ParamLocalTy::<T>::Any(param.pos),
                Some(ty) => r == ParamLocalTy::<T>::Localize(ty),
            },
    {
        match decl_hint {
            None => ParamLocalTy::Any(param.pos),
            Some(ty) => ParamLocalTy::Localize(ty),
        }
    }

    /// Reports a parameter without a type hint.
    pub fn check_param_has_hint(env: &mut TypingEnv, param: &ParamDecl)
        ensures
            param.type_hint is None ==> final(env).errors@ == old(env).errors@.push(
                TypingError::ExpectingTypeHint(param.pos),
            ),
            param.type_hint is Some ==> final(env).errors@ == old(env).errors@,
    {
        let prim_err = match &param.type_hint {
            None => Some(TypingError::ExpectingTypeHint(param.pos)),
            Some(_) => None,
        };
        match prim_err {
            None => {},
            Some(err) => env.add_error(err),
        }
    }
}

} // verus!
