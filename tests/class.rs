use hackc_emit::class::{
    emit_class, emit_classes_from_program, validate_class_name, ClassDecl, ClassishKind,
    Def, EnumDecl, RequireDecl, TraitReqKind, TypeConstDecl, TypeConstInit, UseDecl, EXTENDS_CLOSURE,
    INTERFACE_USES_TRAIT,
};
use hackc_emit::hhas_constant::{ConstDecl, ConstInit};
use hackc_emit::emitter::{Emitter, Options};
use hackc_emit::error::EmitError;
use hackc_emit::hint::Hint;
use hackc_emit::instr::{FatalOp, FcallArgs, Instr, Label, Local, Pos, Span, SpecialClsRef, SwitchCases};
use hackc_emit::records::{Coeffects, Visibility};
use hackc_emit::reified::{ReifyKind, Tparam};
use hackc_emit::synth::{PropertyRecord, TypedValue, CONST_NAME_PARAM, INIT_METH_NAME, INIT_METH_PARAM_NAME, PROP_NAME};

fn ap(name: &str, args: Vec<Hint>) -> Hint {
    Hint::Apply(name.to_string(), args)
}

fn p(line: u64) -> Pos {
    Pos { line_begin: line, col_begin: 1, line_end: line, col_end: 9 }
}

fn span_pos() -> Pos {
    Pos { line_begin: 2, col_begin: 1, line_end: 20, col_end: 1 }
}

fn emitter() -> Emitter {
    Emitter::new(
        Options { jit_enable_rename_function: false, repo_authoritative: false, enable_implicit_context: false },
        false,
    )
}

fn class(name: &str, kind: ClassishKind) -> ClassDecl {
    ClassDecl {
        name: name.to_string(),
        name_pos: p(2),
        namespace: None,
        span: span_pos(),
        kind,
        is_final: false,
        tparams: vec![],
        extends: vec![],
        implements: vec![],
        uses: vec![],
        use_as_alias: vec![],
        insteadof_alias: vec![],
        reqs: vec![],
        enum_: None,
        attributes: vec![],
        properties: vec![],
        constants: vec![],
        typeconsts: vec![],
        methods: vec![],
        xhp_methods: vec![],
        memoize_wrappers: vec![],
        reified_extends_targs: vec![],
        doc_comment: None,
    }
}

fn prop(name: &str, is_static: bool, is_lsb: bool, init: Option<Vec<Instr>>) -> PropertyRecord {
    PropertyRecord {
        name: name.to_string(),
        visibility: Visibility::Public,
        is_static,
        is_lsb,
        is_const: false,
        is_readonly: false,
        type_info: None,
        initial_value: if init.is_some() { None } else { Some(TypedValue::Null) },
        initializer_instrs: init,
    }
}

fn method_names(c: &hackc_emit::class::ClassRecord) -> Vec<String> {
    c.methods.iter().map(|m| m.name.clone()).collect()
}

#[test]
fn static_initializer_concatenates_initializers() {
    let mut c = class("C", ClassishKind::Class(false));
    c.properties = vec![
        prop("a", true, false, Some(vec![Instr::Int(1)])),
        prop("q", true, false, None),
        prop("i", false, false, Some(vec![Instr::Int(5)])),
        prop("b", true, false, Some(vec![Instr::Int(2), Instr::Int(3)])),
    ];
    let mut e = emitter();
    let r = emit_class(&mut e, c).unwrap();
    assert_eq!(method_names(&r), vec!["86pinit", "86sinit"]);
    let sinit = &r.methods[1];
    assert_eq!(sinit.body.instrs, vec![Instr::Int(1), Instr::Int(2), Instr::Int(3), Instr::Null, Instr::RetC]);
    assert!(sinit.is_static && sinit.no_injection && !sinit.is_abstract);
    assert_eq!(sinit.visibility, Visibility::Private);
    assert_eq!(sinit.coeffects, Coeffects::Pure);
    assert_eq!(sinit.span, Span { line_begin: 2, line_end: 20 });
    assert_eq!(r.methods[0].body.instrs, vec![Instr::Int(5), Instr::Null, Instr::RetC]);
    assert_eq!(r.properties.len(), 4);
}

#[test]
fn no_static_initializer_without_initialized_statics() {
    let mut c = class("C", ClassishKind::Class(false));
    c.properties = vec![prop("q", true, false, None), prop("i", false, false, Some(vec![Instr::Int(5)]))];
    let r = emit_class(&mut emitter(), c).unwrap();
    assert_eq!(method_names(&r), vec!["86pinit"]);
    let r = emit_class(&mut emitter(), class("D", ClassishKind::Class(false))).unwrap();
    assert!(r.methods.is_empty());
}

#[test]
fn lsb_statics_get_their_own_initializer() {
    let mut c = class("C", ClassishKind::Class(false));
    c.properties = vec![prop("l", true, true, Some(vec![Instr::Int(4)])), prop("s", true, false, Some(vec![Instr::Int(6)]))];
    let r = emit_class(&mut emitter(), c).unwrap();
    assert_eq!(method_names(&r), vec!["86sinit", "86linit"]);
    assert_eq!(r.methods[1].body.instrs, vec![Instr::Int(4), Instr::Null, Instr::RetC]);
}

fn lowered(name: &str, code: Vec<Instr>) -> ConstDecl {
    ConstDecl { name: name.to_string(), is_abstract: false, init: Some(ConstInit::Lowered(code)) }
}

#[test]
fn constant_dispatch_has_a_case_per_constant_then_default() {
    let mut c = class("C", ClassishKind::Class(false));
    c.constants = vec![
        lowered("A", vec![Instr::Int(1)]),
        ConstDecl { name: "F".to_string(), is_abstract: false, init: Some(ConstInit::Folded(TypedValue::Int(3))) },
        lowered("B", vec![Instr::Int(2)]),
        ConstDecl { name: "X".to_string(), is_abstract: true, init: None },
        lowered("D", vec![Instr::Int(4)]),
    ];
    let r = emit_class(&mut emitter(), c).unwrap();
    assert_eq!(method_names(&r), vec!["86cinit"]);
    let m = &r.methods[0];
    let cases = SwitchCases::Case(
        "A".to_string(),
        Label { id: 0 },
        Box::new(SwitchCases::Case(
            "B".to_string(),
            Label { id: 1 },
            Box::new(SwitchCases::Case(
                "D".to_string(),
                Label { id: 2 },
                Box::new(SwitchCases::Case("default".to_string(), Label { id: 3 }, Box::new(SwitchCases::End))),
            )),
        )),
    );
    let sp = span_pos();
    let mut expected = vec![Instr::SrcLoc(sp), Instr::CGetL(Local::Reserved(CONST_NAME_PARAM)), Instr::SSwitch(cases)];
    for (id, v) in [(0u64, 1i64), (1, 2), (2, 4)] {
        expected.extend(vec![Instr::Label(Label { id }), Instr::Int(v), Instr::SrcLoc(sp), Instr::RetC]);
    }
    expected.extend(vec![
        Instr::Label(Label { id: 3 }),
        Instr::SrcLoc(sp),
        Instr::StringLit("Could not find initializer for "),
        Instr::CGetL(Local::Reserved(CONST_NAME_PARAM)),
        Instr::StringLit(" in 86cinit"),
        Instr::ConcatN(3),
        Instr::Fatal(FatalOp::Runtime),
    ]);
    assert_eq!(m.body.instrs, expected);
    assert_eq!(m.body.params.len(), 1);
    assert_eq!(m.body.params[0].name, "$constName");
    assert!(m.is_static && !m.is_abstract);
    assert_eq!(m.coeffects, Coeffects::Default);
    assert_eq!(r.constants[0].initializer_instrs, Some(vec![Instr::Int(1)]));
    assert_eq!(r.constants[0].value, None);
    assert_eq!(r.constants[1].value, Some(TypedValue::Int(3)));
    assert_eq!(r.constants[1].initializer_instrs, None);
    assert!(r.constants[3].is_abstract && r.constants[3].value.is_none());
}

#[test]
fn single_constant_dispatch_still_ends_in_default() {
    let mut c = class("I", ClassishKind::Interface);
    c.constants = vec![lowered("A", vec![Instr::Int(1)])];
    let r = emit_class(&mut emitter(), c).unwrap();
    let m = &r.methods[0];
    assert!(m.is_abstract);
    match &m.body.instrs[2] {
        Instr::SSwitch(SwitchCases::Case(a, la, rest)) => {
            assert_eq!((a.as_str(), *la), ("A", Label { id: 0 }));
            assert_eq!(**rest, SwitchCases::Case("default".to_string(), Label { id: 1 }, Box::new(SwitchCases::End)));
        },
        other => panic!("unexpected {:?}", other),
    }
}

#[test]
fn reserved_name_in_global_namespace_fails() {
    let r = emit_class(&mut emitter(), class("int", ClassishKind::Class(false)));
    assert_eq!(
        r,
        Err(EmitError::Fatal(FatalOp::Parse, p(2), "Cannot use 'int' as class name as it is reserved".to_string()))
    );
    let mut c = class("\\Int", ClassishKind::Class(false));
    c.namespace = Some("hh".to_string());
    assert_eq!(
        emit_class(&mut emitter(), c),
        Err(EmitError::Fatal(FatalOp::Parse, p(2), "Cannot use 'Int' as class name as it is reserved".to_string()))
    );
}

#[test]
fn reserved_name_in_other_namespace_succeeds() {
    let mut c = class("Foo\\int", ClassishKind::Class(false));
    c.namespace = Some("Foo".to_string());
    let r = emit_class(&mut emitter(), c).unwrap();
    assert_eq!(r.name, "Foo\\int");
}

#[test]
fn globally_reserved_name_fails_everywhere() {
    let mut c = class("Foo\\Self", ClassishKind::Class(false));
    c.namespace = Some("Foo".to_string());
    assert_eq!(
        emit_class(&mut emitter(), c),
        Err(EmitError::Fatal(FatalOp::Parse, p(2), "Cannot use 'Self' as class name as it is reserved".to_string()))
    );
    assert!(validate_class_name(&None, &"Closure$int".to_string(), &p(1)).is_ok());
    assert!(validate_class_name(&None, &"Widget".to_string(), &p(1)).is_ok());
}

#[test]
fn interface_using_trait_fails() {
    let mut c = class("I", ClassishKind::Interface);
    c.uses = vec![UseDecl { pos: p(7), hint: Hint::Prim }, UseDecl { pos: p(8), hint: ap("T", vec![]) }];
    c.properties = vec![prop("i", false, false, Some(vec![Instr::Int(5)]))];
    let mut e = emitter();
    assert_eq!(
        emit_class(&mut e, c),
        Err(EmitError::Fatal(FatalOp::Parse, p(8), INTERFACE_USES_TRAIT.to_string()))
    );
    assert!(e.symbol_refs.is_empty());
}

#[test]
fn class_extending_closure_fails() {
    let mut c = class("C", ClassishKind::Class(false));
    c.extends = vec![ap("\\CLOSURE", vec![])];
    assert_eq!(
        emit_class(&mut emitter(), c),
        Err(EmitError::Fatal(FatalOp::Runtime, p(2), EXTENDS_CLOSURE.to_string()))
    );
    let mut c = class("Closure$f", ClassishKind::Class(false));
    c.extends = vec![ap("Closure", vec![])];
    assert_eq!(emit_class(&mut emitter(), c).unwrap().base, Some("Closure".to_string()));
}

#[test]
fn trait_uses_are_deduplicated_in_order() {
    let mut c = class("C", ClassishKind::Class(false));
    c.uses = vec![
        UseDecl { pos: p(3), hint: ap("\\T2", vec![]) },
        UseDecl { pos: p(4), hint: ap("T1", vec![]) },
        UseDecl { pos: p(5), hint: ap("T2", vec![]) },
    ];
    c.extends = vec![ap("\\Base", vec![])];
    c.implements = vec![ap("\\I1", vec![]), Hint::Mixed];
    c.reqs = vec![RequireDecl { hint: ap("R", vec![]), is_extends: false }];
    let mut e = emitter();
    let r = emit_class(&mut e, c).unwrap();
    assert_eq!(r.uses, vec!["T2".to_string(), "T1".to_string()]);
    assert_eq!(r.base, Some("Base".to_string()));
    assert_eq!(r.implements, vec!["I1".to_string(), "__type_is_not_class__".to_string()]);
    assert_eq!(r.requirements[0].kind, TraitReqKind::MustImplement);
    assert_eq!(
        e.symbol_refs,
        vec!["Base", "I1", "__type_is_not_class__", "T2", "T1", "R"].iter().map(|s| s.to_string()).collect::<Vec<_>>()
    );
}

#[test]
fn interface_extends_become_implements() {
    let mut c = class("I", ClassishKind::Interface);
    c.extends = vec![ap("J", vec![])];
    let r = emit_class(&mut emitter(), c).unwrap();
    assert_eq!(r.base, None);
    assert_eq!(r.implements, vec!["J".to_string()]);
    assert!(r.flags.interface);
}

#[test]
fn enums_get_a_builtin_base() {
    let mut c = class("E", ClassishKind::Enum);
    c.enum_ = Some(EnumDecl { base: "int".to_string(), includes: vec![ap("F", vec![])] });
    let r = emit_class(&mut emitter(), c).unwrap();
    assert_eq!(r.base, Some("HH\\BuiltinEnum".to_string()));
    assert_eq!(r.enum_type, Some("int".to_string()));
    assert_eq!(r.enum_includes, vec!["F".to_string()]);
    assert!(r.flags.is_enum);
    let mut c = class("E", ClassishKind::EnumClass(true));
    c.enum_ = Some(EnumDecl { base: "int".to_string(), includes: vec![] });
    c.attributes = vec!["__EnumClass".to_string()];
    let r = emit_class(&mut emitter(), c).unwrap();
    assert_eq!(r.base, Some("HH\\BuiltinAbstractEnumClass".to_string()));
    assert!(r.flags.enum_class && !r.flags.is_enum && r.flags.is_abstract);
}

#[test]
fn reified_class_without_base_gets_bootstrap() {
    let mut c = class("C", ClassishKind::Class(false));
    c.tparams = vec![Tparam { name: "T".to_string(), reified: ReifyKind::Reified }];
    let r = emit_class(&mut emitter(), c).unwrap();
    assert_eq!(method_names(&r), vec![INIT_METH_NAME]);
    let m = &r.methods[0];
    let param = Local::Reserved(INIT_METH_PARAM_NAME);
    assert_eq!(
        m.body.instrs,
        vec![
            Instr::SrcLoc(span_pos()),
            Instr::CGetL(param.clone()),
            Instr::CheckReifiedGenericMismatch,
            Instr::CheckThis,
            Instr::CGetL(param),
            Instr::BaseH,
            Instr::SetMPT(0, PROP_NAME),
            Instr::PopC,
            Instr::Null,
            Instr::RetC,
        ]
    );
    assert_eq!(m.visibility, Visibility::Protected);
    assert!(!m.is_static);
    assert_eq!(m.body.params[0].type_constraint, Some("HH\\varray".to_string()));
    assert!(r.flags.no_reified_init);
}

#[test]
fn generic_base_is_forwarded_witnesses() {
    let mut c = class("C", ClassishKind::Class(false));
    c.extends = vec![ap("P", vec![ap("int", vec![])])];
    c.reified_extends_targs = vec![Instr::Int(42)];
    c.properties = vec![prop("i", false, false, Some(vec![Instr::Int(5)]))];
    let r = emit_class(&mut emitter(), c).unwrap();
    assert_eq!(method_names(&r), vec!["86reifiedinit", "86pinit"]);
    let args = FcallArgs { has_generics: false, num_args: 1, num_rets: 1, async_eager_target: None };
    assert_eq!(
        r.methods[0].body.instrs,
        vec![
            Instr::SrcLoc(span_pos()),
            Instr::NullUninit,
            Instr::NullUninit,
            Instr::Int(42),
            Instr::RecordReifiedGeneric,
            Instr::FCallClsMethodSD(args, SpecialClsRef::Parent, INIT_METH_NAME),
            Instr::PopC,
            Instr::Null,
            Instr::RetC,
        ]
    );
    assert!(!r.flags.no_reified_init);
}

#[test]
fn traits_and_interfaces_skip_bootstrap() {
    let mut c = class("T", ClassishKind::Trait);
    c.tparams = vec![Tparam { name: "X".to_string(), reified: ReifyKind::Reified }];
    let r = emit_class(&mut emitter(), c).unwrap();
    assert!(r.methods.is_empty());
    assert!(r.flags.is_trait && r.flags.is_final);
    let mut e = Emitter::new(
        Options { jit_enable_rename_function: false, repo_authoritative: false, enable_implicit_context: false },
        true,
    );
    let mut c = class("C", ClassishKind::Class(false));
    c.tparams = vec![Tparam { name: "X".to_string(), reified: ReifyKind::Reified }];
    let r = emit_class(&mut e, c).unwrap();
    assert!(r.methods.is_empty());
    assert!(r.flags.builtin && r.flags.persistent && r.flags.unique);
}

#[test]
fn const_attribute_forbids_dynamic_props() {
    let mut c = class("C", ClassishKind::Class(true));
    c.attributes = vec!["__Const".to_string(), "__Sealed".to_string()];
    c.is_final = true;
    let r = emit_class(&mut emitter(), c).unwrap();
    assert!(r.flags.is_const && r.flags.forbid_dynamic_props && r.flags.sealed && r.flags.is_final);
    assert!(r.flags.is_abstract && !r.flags.no_override);
}

#[test]
fn type_and_context_constants_are_split() {
    let mut c = class("C", ClassishKind::Class(false));
    c.typeconsts = vec![
        TypeConstDecl {
            name: "T".to_string(),
            is_ctx: false,
            is_concrete: true,
            initializer: Some(TypeConstInit::TypeStructure(TypedValue::Int(1))),
        },
        TypeConstDecl {
            name: "C".to_string(),
            is_ctx: true,
            is_concrete: false,
            initializer: Some(TypeConstInit::Contexts(vec!["write_props".to_string()], vec![])),
        },
    ];
    let r = emit_class(&mut emitter(), c).unwrap();
    assert_eq!(r.type_constants.len(), 1);
    assert_eq!(r.type_constants[0].initializer, Some(TypedValue::Int(1)));
    assert_eq!(r.ctx_constants[0].recognized, vec!["write_props".to_string()]);
    assert!(r.ctx_constants[0].is_abstract);
}

#[test]
fn program_lowers_its_classes_in_order() {
    let defs = vec![Def::Class(class("A", ClassishKind::Class(false))), Def::Other, Def::Class(class("B", ClassishKind::Trait))];
    let r = emit_classes_from_program(&mut emitter(), defs).unwrap();
    assert_eq!(r.iter().map(|c| c.name.clone()).collect::<Vec<_>>(), vec!["A".to_string(), "B".to_string()]);
    let defs = vec![Def::Class(class("A", ClassishKind::Class(false))), Def::Class(class("void", ClassishKind::Class(false)))];
    assert!(emit_classes_from_program(&mut emitter(), defs).is_err());
}

#[test]
fn abstract_constants_carry_no_initializer() {
    let mut c = class("C", ClassishKind::Class(true));
    c.constants = vec![
        ConstDecl { name: "A".to_string(), is_abstract: true, init: Some(ConstInit::Lowered(vec![Instr::Int(1)])) },
        ConstDecl { name: "B".to_string(), is_abstract: true, init: Some(ConstInit::Folded(TypedValue::Int(2))) },
    ];
    let r = emit_class(&mut emitter(), c).unwrap();
    assert!(r.methods.is_empty());
    assert_eq!(r.constants[0].initializer_instrs, None);
    assert_eq!(r.constants[0].value, None);
    assert_eq!(r.constants[1].value, None);
    assert!(r.constants[0].is_abstract && r.constants[1].is_abstract);
}
