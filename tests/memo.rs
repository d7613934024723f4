use hackc_emit::emitter::{Emitter, Options};
use hackc_emit::error::EmitError;
use hackc_emit::instr::{FatalOp, FcallArgs, Instr, Label, Local, MemoKeyRange, Pos};
use hackc_emit::memo_wrapper::{
    emit_wrapper_function, is_interceptable, make_memoize_function_code, FunDecl, FunParam, ParamBinding,
    GENERICS_LOCAL_NAME, MEMOIZE_INOUT_MESSAGE, MEMOIZE_VARIADIC_MESSAGE,
};
use hackc_emit::records::Coeffects;
use hackc_emit::reified::{ReifyKind, Tparam};

fn pos() -> Pos {
    Pos { line_begin: 3, col_begin: 1, line_end: 5, col_end: 2 }
}

fn options(ic: bool) -> Options {
    Options { jit_enable_rename_function: false, repo_authoritative: false, enable_implicit_context: ic }
}

fn empty_binding() -> ParamBinding {
    ParamBinding { begin_label: vec![], prolog: vec![], default_value_setters: vec![] }
}

fn l(id: u64) -> Label {
    Label { id }
}

fn renamed() -> String {
    "f$memoize_impl".to_string()
}

#[test]
fn wrapper_without_parameters_sync() {
    let mut e = Emitter::new(options(false), false);
    let r = make_memoize_function_code(&mut e, &pos(), vec![], &vec![], empty_binding(), &renamed(), false, false, false);
    let args = FcallArgs { has_generics: false, num_args: 0, num_rets: 1, async_eager_target: None };
    assert_eq!(
        r,
        vec![
            Instr::SrcLoc(pos()),
            Instr::MemoGet(l(0), None),
            Instr::RetC,
            Instr::Label(l(0)),
            Instr::NullUninit,
            Instr::NullUninit,
            Instr::FCallFuncD(args, renamed()),
            Instr::MemoSet(None),
            Instr::RetC,
        ]
    );
    assert_eq!(e.next_label, 3);
}

#[test]
fn wrapper_without_parameters_async() {
    let mut e = Emitter::new(options(false), false);
    let dep = vec![Instr::Int(7)];
    let r = make_memoize_function_code(&mut e, &pos(), dep, &vec![], empty_binding(), &renamed(), true, false, false);
    let args = FcallArgs { has_generics: false, num_args: 0, num_rets: 1, async_eager_target: Some(l(2)) };
    assert_eq!(
        r,
        vec![
            Instr::SrcLoc(pos()),
            Instr::Int(7),
            Instr::MemoGetEager(l(0), l(1), None),
            Instr::RetC,
            Instr::Label(l(1)),
            Instr::RetCSuspended,
            Instr::Label(l(0)),
            Instr::NullUninit,
            Instr::NullUninit,
            Instr::FCallFuncD(args, renamed()),
            Instr::MemoSet(None),
            Instr::RetCSuspended,
            Instr::Label(l(2)),
            Instr::MemoSetEager(None),
            Instr::RetC,
        ]
    );
}

#[test]
fn wrapper_with_parameters_keys_each_parameter() {
    let mut e = Emitter::new(options(false), false);
    let names = vec!["$a".to_string(), "$b".to_string()];
    let binding = ParamBinding {
        begin_label: vec![Instr::Int(1)],
        prolog: vec![Instr::Int(2)],
        default_value_setters: vec![Instr::Int(9)],
    };
    let r = make_memoize_function_code(&mut e, &pos(), vec![Instr::Int(3)], &names, binding, &renamed(), false, false, false);
    let key = Some(MemoKeyRange { first: 2, count: 2 });
    let args = FcallArgs { has_generics: false, num_args: 2, num_rets: 1, async_eager_target: None };
    let named = |n: &str| Local::Named(n.to_string());
    assert_eq!(
        r,
        vec![
            Instr::SrcLoc(pos()),
            Instr::Int(1),
            Instr::Int(2),
            Instr::Int(3),
            Instr::GetMemoKeyL(named("$a")),
            Instr::SetL(Local::Unnamed(2)),
            Instr::PopC,
            Instr::GetMemoKeyL(named("$b")),
            Instr::SetL(Local::Unnamed(3)),
            Instr::PopC,
            Instr::MemoGet(l(0), key),
            Instr::RetC,
            Instr::Label(l(0)),
            Instr::NullUninit,
            Instr::NullUninit,
            Instr::CGetL(named("$a")),
            Instr::CGetL(named("$b")),
            Instr::FCallFuncD(args, renamed()),
            Instr::MemoSet(key),
            Instr::RetC,
            Instr::Int(9),
        ]
    );
}

#[test]
fn wrapper_with_reified_generics_adds_a_key() {
    let mut e = Emitter::new(options(false), false);
    let names = vec!["$a".to_string()];
    let r = make_memoize_function_code(&mut e, &pos(), vec![], &names, empty_binding(), &renamed(), false, true, false);
    let key = Some(MemoKeyRange { first: 2, count: 2 });
    let args = FcallArgs { has_generics: true, num_args: 1, num_rets: 1, async_eager_target: None };
    assert_eq!(
        r,
        vec![
            Instr::SrcLoc(pos()),
            Instr::GetMemoKeyL(Local::Named("$a".to_string())),
            Instr::SetL(Local::Unnamed(2)),
            Instr::PopC,
            Instr::GetMemoKeyL(Local::Reserved(GENERICS_LOCAL_NAME)),
            Instr::SetL(Local::Unnamed(3)),
            Instr::PopC,
            Instr::MemoGet(l(0), key),
            Instr::RetC,
            Instr::Label(l(0)),
            Instr::NullUninit,
            Instr::NullUninit,
            Instr::CGetL(Local::Named("$a".to_string())),
            Instr::CGetL(Local::Reserved(GENERICS_LOCAL_NAME)),
            Instr::FCallFuncD(args, renamed()),
            Instr::MemoSet(key),
            Instr::RetC,
        ]
    );
}

#[test]
fn implicit_context_without_parameters_takes_the_keyed_form() {
    let mut e = Emitter::new(options(true), false);
    let r = make_memoize_function_code(&mut e, &pos(), vec![], &vec![], empty_binding(), &renamed(), false, false, true);
    let key = Some(MemoKeyRange { first: 0, count: 1 });
    assert_eq!(r[1], Instr::GetMemoAgnosticImplicitContext);
    assert_eq!(r[2], Instr::SetL(Local::Unnamed(0)));
    assert_eq!(r[4], Instr::MemoGet(l(0), key));
}

fn calls_to(body: &[Instr], f: &str) -> usize {
    body.iter().filter(|i| matches!(i, Instr::FCallFuncD(_, g) if g == f)).count()
}

#[test]
fn every_wrapper_shape_calls_the_implementation_once() {
    for n in 0..3usize {
        for bits in 0..8u32 {
            let (is_async, is_reified, ic) = (bits & 1 != 0, bits & 2 != 0, bits & 4 != 0);
            let mut e = Emitter::new(options(ic), false);
            let names: Vec<String> = (0..n).map(|i| format!("$p{}", i)).collect();
            let binding = ParamBinding {
                begin_label: vec![Instr::Label(l(99))],
                prolog: vec![Instr::VerifyTypeTS],
                default_value_setters: vec![Instr::Null, Instr::PopC],
            };
            let r = make_memoize_function_code(
                &mut e,
                &pos(),
                vec![Instr::String("deprecated".to_string())],
                &names,
                binding,
                &renamed(),
                is_async,
                is_reified,
                ic,
            );
            assert_eq!(calls_to(&r, "f$memoize_impl"), 1);
            let rets = r.iter().filter(|i| matches!(i, Instr::RetC | Instr::RetCSuspended)).count();
            assert_eq!(rets, if is_async { 4 } else { 2 });
        }
    }
}

fn decl(params: Vec<FunParam>, tparams: Vec<Tparam>, attributes: Vec<String>) -> FunDecl {
    FunDecl {
        name: "f".to_string(),
        name_pos: Pos { line_begin: 1, col_begin: 10, line_end: 1, col_end: 11 },
        span: pos(),
        params,
        tparams,
        is_async: false,
        readonly_ret: false,
        attributes,
        coeffects: Coeffects::Default,
    }
}

fn param(name: &str, is_inout: bool, is_variadic: bool) -> FunParam {
    FunParam { name: name.to_string(), is_inout, is_variadic }
}

#[test]
fn wrapper_rejects_inout_parameters() {
    let mut e = Emitter::new(options(false), false);
    let fd = decl(vec![param("$a", true, false), param("$b", false, true)], vec![], vec![]);
    let r = emit_wrapper_function(&mut e, "f".to_string(), &renamed(), vec![], empty_binding(), &fd);
    assert_eq!(r, Err(EmitError::Fatal(FatalOp::Runtime, fd.name_pos, MEMOIZE_INOUT_MESSAGE.to_string())));
    assert_eq!(e.next_label, 0);
}

#[test]
fn wrapper_rejects_variadic_parameters() {
    let mut e = Emitter::new(options(false), false);
    let fd = decl(vec![param("$a", false, false), param("$b", false, true)], vec![], vec![]);
    let r = emit_wrapper_function(&mut e, "f".to_string(), &renamed(), vec![], empty_binding(), &fd);
    assert_eq!(r, Err(EmitError::Fatal(FatalOp::Runtime, fd.name_pos, MEMOIZE_VARIADIC_MESSAGE.to_string())));
}

#[test]
fn wrapper_function_record() {
    let mut e = Emitter::new(options(true), true);
    let fd = decl(
        vec![param("$a", false, false)],
        vec![Tparam { name: "T".to_string(), reified: ReifyKind::SoftReified }],
        vec!["__PolicyShardedMemoize".to_string(), "__DynamicallyCallable".to_string()],
    );
    let f = emit_wrapper_function(&mut e, "f".to_string(), &renamed(), vec![], empty_binding(), &fd).unwrap();
    assert_eq!(f.name, "f");
    assert_eq!(f.body.decl_vars, vec![GENERICS_LOCAL_NAME.to_string()]);
    assert!(f.body.is_memoize_wrapper);
    assert_eq!(f.body.params.len(), 1);
    assert_eq!(f.body.params[0].name, "$a");
    assert!(f.attrs.dynamically_callable);
    assert!(f.attrs.builtin && f.attrs.persistent && f.attrs.unique);
    assert!(!f.attrs.interceptable);
    assert_eq!(calls_to(&f.body.instrs, "f$memoize_impl"), 1);
    // one parameter, reified generics and the implicit context: three keys
    assert!(f.body.instrs.contains(&Instr::MemoGet(l(0), Some(MemoKeyRange { first: 2, count: 3 }))));
    assert_eq!(e.next_label, 3);
}

#[test]
fn interceptable_needs_renaming_outside_authoritative_mode() {
    let o = |r: bool, a: bool| Options { jit_enable_rename_function: r, repo_authoritative: a, enable_implicit_context: false };
    assert!(is_interceptable(&o(true, false)));
    assert!(!is_interceptable(&o(true, true)));
    assert!(!is_interceptable(&o(false, false)));
}
