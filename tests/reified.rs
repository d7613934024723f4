use hackc_emit::emitter::{Emitter, Options};
use hackc_emit::error::EmitError;
use hackc_emit::hint::{Hint, ShapeField};
use hackc_emit::instr::{Instr, Label};
use hackc_emit::reified::{
    convert_awaitable, get_erased_tparams, happly_decl_has_no_reified_generics, has_reified_type_constraint,
    remove_awaitable, remove_erased_generics, simplify_verify_type, verify_type_target, ReificationLevel,
    ReifyKind, Scope, Tparam,
};

fn ap(name: &str, args: Vec<Hint>) -> Hint {
    Hint::Apply(name.to_string(), args)
}

fn tp(name: &str, reified: ReifyKind) -> Tparam {
    Tparam { name: name.to_string(), reified }
}

/// Class parameters `T` (reified) and `S` (soft-reified); function
/// parameter `U` (erased).
fn scope(is_async: bool) -> Scope {
    Scope {
        class_tparams: vec![tp("T", ReifyKind::Reified), tp("S", ReifyKind::SoftReified)],
        fun_tparams: vec![tp("U", ReifyKind::Erased)],
        is_async,
    }
}

fn options() -> Options {
    Options { jit_enable_rename_function: false, repo_authoritative: false, enable_implicit_context: false }
}

const ALL: [ReificationLevel; 4] = [
    ReificationLevel::Definitely,
    ReificationLevel::Maybe,
    ReificationLevel::Not,
    ReificationLevel::Unconstrained,
];

#[test]
fn combine_definitely_absorbs_everything() {
    for x in ALL.iter() {
        assert_eq!(ReificationLevel::combine(&ReificationLevel::Definitely, x), ReificationLevel::Definitely);
        assert_eq!(ReificationLevel::combine(x, &ReificationLevel::Definitely), ReificationLevel::Definitely);
    }
}

#[test]
fn combine_maybe_and_not() {
    assert_eq!(
        ReificationLevel::combine(&ReificationLevel::Maybe, &ReificationLevel::Not),
        ReificationLevel::Maybe
    );
    assert_eq!(ReificationLevel::combine(&ReificationLevel::Not, &ReificationLevel::Not), ReificationLevel::Not);
}

#[test]
fn combine_is_commutative_and_never_unconstrained() {
    let produced = [ReificationLevel::Definitely, ReificationLevel::Maybe, ReificationLevel::Not];
    for x in produced.iter() {
        for y in produced.iter() {
            assert_eq!(ReificationLevel::combine(x, y), ReificationLevel::combine(y, x));
        }
    }
    for x in ALL.iter() {
        for y in ALL.iter() {
            assert_ne!(ReificationLevel::combine(x, y), ReificationLevel::Unconstrained);
        }
    }
}

#[test]
fn classify_reified_parameter_is_definitely() {
    let s = scope(false);
    assert_eq!(has_reified_type_constraint(&s, &ap("T", vec![])), Ok(ReificationLevel::Definitely));
    assert_eq!(has_reified_type_constraint(&s, &ap("S", vec![])), Ok(ReificationLevel::Definitely));
    assert_eq!(
        has_reified_type_constraint(&s, &Hint::Option(Box::new(ap("T", vec![])))),
        Ok(ReificationLevel::Definitely)
    );
    assert_eq!(
        has_reified_type_constraint(&s, &Hint::Like(Box::new(Hint::Soft(Box::new(ap("T", vec![])))))),
        Ok(ReificationLevel::Definitely)
    );
}

#[test]
fn classify_erased_arguments_is_not() {
    let s = scope(false);
    assert_eq!(has_reified_type_constraint(&s, &ap("Foo", vec![])), Ok(ReificationLevel::Not));
    assert_eq!(
        has_reified_type_constraint(&s, &ap("Foo", vec![ap("_", vec![]), ap("U", vec![])])),
        Ok(ReificationLevel::Not)
    );
    assert_eq!(has_reified_type_constraint(&s, &Hint::Prim), Ok(ReificationLevel::Not));
    assert_eq!(has_reified_type_constraint(&s, &Hint::Tuple(vec![ap("T", vec![])])), Ok(ReificationLevel::Not));
}

#[test]
fn classify_applied_arguments_fold_from_maybe() {
    let s = scope(false);
    assert_eq!(
        has_reified_type_constraint(&s, &ap("Foo", vec![ap("Bar", vec![ap("Baz", vec![])])])),
        Ok(ReificationLevel::Maybe)
    );
    assert_eq!(
        has_reified_type_constraint(&s, &ap("Foo", vec![ap("int", vec![]), ap("T", vec![])])),
        Ok(ReificationLevel::Definitely)
    );
    assert_eq!(has_reified_type_constraint(&s, &ap("vec", vec![ap("int", vec![])])), Ok(ReificationLevel::Maybe));
}

#[test]
fn classify_impossible_hints_is_internal_error() {
    let s = scope(false);
    for h in [Hint::Error, Hint::Any, Hint::Abstr] {
        assert!(matches!(has_reified_type_constraint(&s, &h), Err(EmitError::Unrecoverable(_))));
    }
    assert!(matches!(
        has_reified_type_constraint(&s, &ap("Foo", vec![Hint::Any, ap("int", vec![])])),
        Err(EmitError::Unrecoverable(_))
    ));
}

#[test]
fn erased_tparams_in_scope_order() {
    assert_eq!(get_erased_tparams(&scope(false)), vec!["S".to_string(), "U".to_string()]);
}

#[test]
fn erase_rewrites_erased_parameters() {
    let s = scope(false);
    let h = ap("Foo", vec![ap("U", vec![]), ap("T", vec![]), Hint::Option(Box::new(ap("S", vec![])))]);
    let expected = ap("Foo", vec![ap("_", vec![]), ap("T", vec![]), Hint::Option(Box::new(ap("_", vec![])))]);
    assert_eq!(remove_erased_generics(&s, h), Ok(expected));
}

#[test]
fn erase_walks_shapes_and_keeps_function_types() {
    let s = scope(false);
    let h = Hint::Shape(
        false,
        vec![ShapeField { optional: true, name: "a".to_string(), hint: ap("U", vec![]) }],
    );
    let expected = Hint::Shape(
        false,
        vec![ShapeField { optional: true, name: "a".to_string(), hint: ap("_", vec![]) }],
    );
    assert_eq!(remove_erased_generics(&s, h), Ok(expected));
    let f = Hint::Fun(vec![ap("U", vec![])], Box::new(ap("U", vec![])));
    assert_eq!(
        remove_erased_generics(&s, Hint::Fun(vec![ap("U", vec![])], Box::new(ap("U", vec![])))),
        Ok(f)
    );
}

#[test]
fn erase_is_idempotent() {
    let s = scope(false);
    let make = || {
        Hint::Union(vec![
            ap("Foo", vec![ap("U", vec![]), ap("T", vec![])]),
            Hint::Like(Box::new(Hint::Tuple(vec![ap("S", vec![]), ap("int", vec![])]))),
        ])
    };
    let once = remove_erased_generics(&s, make()).unwrap();
    let twice = remove_erased_generics(&s, remove_erased_generics(&s, make()).unwrap()).unwrap();
    assert_eq!(once, twice);
}

#[test]
fn erase_rejects_hints_it_cannot_walk() {
    let s = scope(false);
    assert!(matches!(remove_erased_generics(&s, Hint::Prim), Err(EmitError::Unrecoverable(_))));
    assert!(matches!(
        remove_erased_generics(&s, ap("Foo", vec![Hint::Var("x".to_string())])),
        Err(EmitError::Unrecoverable(_))
    ));
}

#[test]
fn awaitable_unwraps_in_async_scope() {
    let h = ap("\\HH\\Awaitable", vec![ap("int", vec![])]);
    assert_eq!(convert_awaitable(&scope(true), h), ap("int", vec![]));
    let lower = ap("\\hh\\AWAITABLE", vec![ap("int", vec![])]);
    assert_eq!(convert_awaitable(&scope(true), lower), ap("int", vec![]));
}

#[test]
fn awaitable_kept_outside_async_scope() {
    let h = ap("\\HH\\Awaitable", vec![ap("int", vec![])]);
    assert_eq!(convert_awaitable(&scope(false), h), ap("\\HH\\Awaitable", vec![ap("int", vec![])]));
}

#[test]
fn awaitable_wrappers_move_inward() {
    let aw = || ap("\\HH\\Awaitable", vec![ap("int", vec![])]);
    assert_eq!(remove_awaitable(Hint::Option(Box::new(aw()))), ap("int", vec![]));
    assert_eq!(remove_awaitable(Hint::Soft(Box::new(aw()))), Hint::Soft(Box::new(ap("int", vec![]))));
    assert_eq!(remove_awaitable(Hint::Like(Box::new(aw()))), Hint::Like(Box::new(ap("int", vec![]))));
    let two = ap("\\HH\\Awaitable", vec![ap("int", vec![]), ap("int", vec![])]);
    assert_eq!(remove_awaitable(two), ap("\\HH\\Awaitable", vec![ap("int", vec![]), ap("int", vec![])]));
    assert_eq!(remove_awaitable(ap("Foo", vec![ap("int", vec![])])), ap("Foo", vec![ap("int", vec![])]));
}

#[test]
fn verify_type_of_nullable_skips_when_checked() {
    let mut e = Emitter::new(options(), false);
    e.next_label = 5;
    let hint = Hint::Option(Box::new(ap("T", vec![])));
    assert_eq!(verify_type_target(&hint), &ap("T", vec![]));
    let r = simplify_verify_type(&mut e, vec![Instr::Int(1)], &hint, vec![Instr::Int(2)], vec![Instr::VerifyTypeTS]);
    let l = Label { id: 5 };
    assert_eq!(
        r,
        vec![Instr::Int(1), Instr::JmpNZ(l), Instr::Int(2), Instr::VerifyTypeTS, Instr::Label(l)]
    );
    assert_eq!(e.next_label, 6);
}

#[test]
fn verify_type_of_plain_hint_always_verifies() {
    let mut e = Emitter::new(options(), false);
    let hint = ap("T", vec![]);
    let r = simplify_verify_type(&mut e, vec![Instr::Int(1)], &hint, vec![Instr::Int(2)], vec![Instr::VerifyTypeTS]);
    assert_eq!(r, vec![Instr::Int(2), Instr::VerifyTypeTS]);
    assert_eq!(e.next_label, 0);
}

#[test]
fn decl_probe_needs_an_erased_or_unknown_class() {
    let h = ap("C", vec![]);
    assert!(happly_decl_has_no_reified_generics(&h, Some(&vec![ReifyKind::Erased, ReifyKind::Erased])));
    assert!(happly_decl_has_no_reified_generics(&h, Some(&vec![])));
    assert!(!happly_decl_has_no_reified_generics(&h, Some(&vec![ReifyKind::Erased, ReifyKind::SoftReified])));
    assert!(happly_decl_has_no_reified_generics(&h, None));
    assert!(!happly_decl_has_no_reified_generics(&Hint::Option(Box::new(h)), Some(&vec![])));
}
