use hackc_emit::hint::Hint;
use hackc_emit::instr::Pos;
use hackc_emit::typing_param::{ParamDecl, ParamLocalTy, TypingEnv, TypingError, TypingParam};

fn pos() -> Pos {
    Pos { line_begin: 4, col_begin: 2, line_end: 4, col_end: 8 }
}

#[test]
fn param_without_declared_type_is_any() {
    let param = ParamDecl { pos: pos(), type_hint: None };
    assert_eq!(TypingParam::make_param_local_ty::<u32>(None, &param), ParamLocalTy::Any(pos()));
    assert_eq!(TypingParam::make_param_local_ty(Some(7u32), &param), ParamLocalTy::Localize(7));
}

#[test]
fn param_without_hint_is_reported() {
    let mut env = TypingEnv { errors: vec![] };
    TypingParam::check_param_has_hint(&mut env, &ParamDecl { pos: pos(), type_hint: None });
    assert_eq!(env.errors, vec![TypingError::ExpectingTypeHint(pos())]);
    TypingParam::check_param_has_hint(&mut env, &ParamDecl { pos: pos(), type_hint: Some(Hint::Prim) });
    assert_eq!(env.errors.len(), 1);
}
