use vstd::prelude::*;

use crate::emitter::Emitter;
use crate::instr::{
    append_copy, emit_pos_spec, emit_pos_then, FatalOp, FcallArgs, Instr, Label, Local, Pos, Span, SpecialClsRef,
    SwitchCases,
};
use crate::records::{Body, Coeffects, MethodRecord, Param, Visibility};

verus! {

/// The property that holds the reified generics of an instance.
pub const PROP_NAME: &'static str = "86reified_prop";

/// The method that stores the reified generics of a new instance.
pub const INIT_METH_NAME: &'static str = "86reifiedinit";

/// Its parameter: the generics as a list of type structures.
pub const INIT_METH_PARAM_NAME: &'static str = "$__typestructures";

pub const VARRAY_TYPE: &'static str = "HH\\varray";

pub const CONST_NAME_PARAM: &'static str = "$constName";

pub const CINIT_NAME: &'static str = "86cinit";

pub const PINIT_NAME: &'static str = "86pinit";

pub const SINIT_NAME: &'static str = "86sinit";

pub const LINIT_NAME: &'static str = "86linit";

pub const MISSING_INIT_PREFIX: &'static str = "Could not find initializer for ";

pub const MISSING_INIT_SUFFIX: &'static str = " in 86cinit";

pub const DEFAULT_CASE: &'static str = "default";

/// A constant folded at compile time.
#[derive(Debug, PartialEq, Eq)]
pub enum TypedValue {
    Uninit,
    Null,
    Bool(bool),
    Int(i64),
    String(String),
    Vec(Vec<TypedValue>),
}

/// An emitted property.
#[derive(Debug, PartialEq, Eq)]
pub struct PropertyRecord {
    pub name: String,
    pub visibility: Visibility,
    pub is_static: bool,
    /// Late static binding: re-initialized for each subclass.
    pub is_lsb: bool,
    pub is_const: bool,
    pub is_readonly: bool,
    pub type_info: Option<String>,
    pub initial_value: Option<TypedValue>,
    /// Present exactly when the initial value could not be folded.
    pub initializer_instrs: Option<Vec<Instr>>,
}

/// The three property initializers and the properties each one covers.
#[derive(Debug, Clone, Copy, PartialEq, Eq)]
pub enum InitKind {
    /// Instance properties (`86pinit`).
    Instance,
    /// Static properties without late static binding (`86sinit`).
    Static,
    /// Static properties with late static binding (`86linit`).
    Lsb,
}

pub open spec fn init_filter(kind: InitKind, p: PropertyRecord) -> bool {
    match kind {
        InitKind::Instance => !p.is_static,
        InitKind::Static => p.is_static && !p.is_lsb,
        InitKind::Lsb => p.is_static && p.is_lsb,
    }
}

pub fn init_filter_exec(kind: InitKind, p: &PropertyRecord) -> (r: bool)
    ensures
        r == init_filter(kind, *p),
{
    match kind {
        InitKind::Instance => !p.is_static,
        InitKind::Static => p.is_static && !p.is_lsb,
        InitKind::Lsb => p.is_static && p.is_lsb,
    }
}

pub open spec fn init_name(kind: InitKind) -> &'static str {
    match kind {
        InitKind::Instance => PINIT_NAME,
        InitKind::Static => SINIT_NAME,
        InitKind::Lsb => LINIT_NAME,
    }
}

/// The initializers of the properties that `kind` covers, in declaration order.
pub open spec fn init_code(props: Seq<PropertyRecord>, kind: InitKind) -> Seq<Instr>
    decreases props.len(),
{
    if props.len() == 0 {
        Seq::empty()
    } else {
        let p = props.last();
        init_code(props.drop_last(), kind) + if init_filter(kind, p) && p.initializer_instrs is Some {
            p.initializer_instrs->0@
        } else {
            Seq::empty()
        }
    }
}

/// Some property that `kind` covers has an initializer.
pub open spec fn needs_init(props: Seq<PropertyRecord>, kind: InitKind) -> bool {
    exists|i: int|
        0 <= i < props.len() && init_filter(kind, #[trigger] props[i]) && props[i].initializer_instrs is Some
}

/// `m` is a method that the compiler generates: private unless said
/// otherwise, with no injection, no declared locals and no iterators.
pub open spec fn is_generated_method(
    m: MethodRecord,
    name: Seq<char>,
    is_static: bool,
    visibility: Visibility,
    is_abstract: bool,
    span: Span,
    coeffects: Coeffects,
    instrs: Seq<Instr>,
) -> bool {
    &&& m.name@ == name
    &&& m.is_static == is_static
    &&& m.visibility == visibility
    &&& m.is_abstract == is_abstract
    &&& m.no_injection
    &&& !m.is_closure_body
    &&& m.span == span
    &&& m.coeffects == coeffects
    &&& m.body.instrs@ == instrs
    &&& m.body.decl_vars@.len() == 0
    &&& m.body.num_iters == 0
    &&& !m.body.is_memoize_wrapper
}

/// `m` is the initializer `kind` of `props`: their initializers, then a
/// null returned.
pub open spec fn is_init_method(m: MethodRecord, props: Seq<PropertyRecord>, kind: InitKind, span: Span) -> bool {
    &&& is_generated_method(
        m,
        init_name(kind)@,
        true,
        Visibility::Private,
        false,
        span,
        Coeffects::Pure,
        init_code(props, kind) + seq![Instr::Null, Instr::RetC],
    )
    &&& m.body.params@.len() == 0
}

/// A method that the compiler generates; iterators are numbered afresh.
pub fn make_86method(
    e: &mut Emitter,
    name: String,
    params: Vec<Param>,
    is_static: bool,
    visibility: Visibility,
    is_abstract: bool,
    span: Span,
    coeffects: Coeffects,
    instrs: Vec<Instr>,
) -> (r: MethodRecord)
    ensures
        is_generated_method(r, name@, is_static, visibility, is_abstract, span, coeffects, instrs@),
        r.body.params == params,
        r.name == name,
        final(e).next_iterator == 0,
        final(e).next_label == old(e).next_label,
        final(e).systemlib == old(e).systemlib,
        final(e).options == old(e).options,
        final(e).symbol_refs == old(e).symbol_refs,
{
    e.reset_iterators();
    let body = Body { instrs, decl_vars: Vec::new(), params, num_iters: e.next_iterator, is_memoize_wrapper: false };
    MethodRecord {
        name,
        body,
        visibility,
        is_static,
        is_abstract,
        no_injection: true,
        is_closure_body: false,
        span,
        coeffects,
    }
}

/// The initializer `kind` of `properties`; none where no property it covers
/// has an initializer.
pub fn make_init_method(e: &mut Emitter, properties: &Vec<PropertyRecord>, kind: InitKind, span: Span) -> (r:
    Option<MethodRecord>)
    ensures
        r is Some <==> needs_init(properties@, kind),
        r matches Some(m) ==> is_init_method(m, properties@, kind, span),
        final(e).next_label == old(e).next_label,
        final(e).systemlib == old(e).systemlib,
        final(e).options == old(e).options,
        final(e).symbol_refs == old(e).symbol_refs,
        r is None ==> final(e).next_iterator == old(e).next_iterator,
{
    let mut instrs: Vec<Instr> = Vec::new();
    let mut any = false;
    let mut i: usize = 0;
    while i < properties.len()
        invariant
            i <= properties.len(),
            instrs@ == init_code(properties@.subrange(0, i as int), kind),
            any == exists|j: int|
                0 <= j < i && init_filter(kind, #[trigger] properties@[j])
                    && properties@[j].initializer_instrs is Some,
        decreases properties.len() - i,
    {
        assert(properties@.subrange(0, i + 1).drop_last() =~= properties@.subrange(0, i as int));
        let p = &properties[i];
        if init_filter_exec(kind, p) {
            match &p.initializer_instrs {
                Some(code) => {
                    append_copy(&mut instrs, code);
                    any = true;
                },
                None => {},
            }
        }
        i = i + 1;
    }
    assert(properties@.subrange(0, properties.len() as int) =~= properties@);
    if !any {
        return None;
    }
    let ghost code = instrs@;
    instrs.push(Instr::Null);
    instrs.push(Instr::RetC);
    assert(instrs@ =~= code + seq![Instr::Null, Instr::RetC]);
    let name = match kind {
        InitKind::Instance => PINIT_NAME,
        InitKind::Static => SINIT_NAME,
        InitKind::Lsb => LINIT_NAME,
    };
    Some(make_86method(
        e,
        name.to_owned(),
        Vec::new(),
        true,
        Visibility::Private,
        false,
        span,
        Coeffects::Pure,
        instrs,
    ))
}

/// The case chain of the constant dispatch: each initialized constant's
/// label, initializer, position marker and return, then the default case,
/// which raises a run-time fatal naming the missing constant.
pub open spec fn cinit_chain(consts: Seq<(Label, Seq<Instr>)>, default_label: Label, pos: Pos) -> Seq<Instr>
    decreases consts.len(),
{
    if consts.len() == 0 {
        seq![
            Instr::Label(default_label),
            Instr::SrcLoc(pos),
            Instr::StringLit(MISSING_INIT_PREFIX),
            Instr::CGetL(Local::Reserved(CONST_NAME_PARAM)),
            Instr::StringLit(MISSING_INIT_SUFFIX),
            Instr::ConcatN(3),
            Instr::Fatal(FatalOp::Runtime),
        ]
    } else {
        seq![Instr::Label(consts[0].0)] + consts[0].1 + seq![Instr::SrcLoc(pos), Instr::RetC] + cinit_chain(
            consts.drop_first(),
            default_label,
            pos,
        )
    }
}

/// A constant that the dispatch covers: its name, label and initializer.
#[derive(Debug)]
pub struct InitializedConstant {
    pub name: String,
    pub label: Label,
    pub instrs: Vec<Instr>,
}

/// The constants as (name, label, initializer) triples.
pub open spec fn initialized_view(cs: Seq<InitializedConstant>) -> Seq<(Seq<char>, Label, Seq<Instr>)> {
    Seq::new(cs.len(), |i: int| (cs[i].name@, cs[i].label, cs[i].instrs@))
}

pub open spec fn chain_input(cs: Seq<(Seq<char>, Label, Seq<Instr>)>) -> Seq<(Label, Seq<Instr>)> {
    Seq::new(cs.len(), |i: int| (cs[i].1, cs[i].2))
}

/// The switch cases: one per constant, in order, then the default.
pub open spec fn cinit_cases(cs: Seq<(Seq<char>, Label, Seq<Instr>)>, default_label: Label) -> Seq<
    (Seq<char>, Label),
> {
    Seq::new(cs.len(), |i: int| (cs[i].0, cs[i].1)) + seq![(DEFAULT_CASE@, default_label)]
}

/// The dispatch has one case per constant, in declaration order, and the
/// default case last, whatever the number of constants.
pub proof fn lemma_cinit_cases_shape(cs: Seq<(Seq<char>, Label, Seq<Instr>)>, default_label: Label)
    ensures
        cinit_cases(cs, default_label).len() == cs.len() + 1,
        cinit_cases(cs, default_label).last() == (DEFAULT_CASE@, default_label),
        forall|i: int| 0 <= i < cs.len() ==> #[trigger] cinit_cases(cs, default_label)[i] == (cs[i].0, cs[i].1),
{
}

fn make_cinit_instrs(consts: &Vec<InitializedConstant>, i: usize, default_label: Label, pos: &Pos) -> (r: Vec<
    Instr,
>)
    requires
        i <= consts.len(),
    ensures
        r@ == cinit_chain(
            chain_input(initialized_view(consts@)).subrange(i as int, consts.len() as int),
            default_label,
            *pos,
        ),
    decreases consts.len() - i,
{
    let ghost tail = chain_input(initialized_view(consts@)).subrange(i as int, consts.len() as int);
    if i == consts.len() {
        let mut r: Vec<Instr> = Vec::new();
        r.push(Instr::Label(default_label));
        r.push(Instr::SrcLoc(*pos));
        r.push(Instr::StringLit(MISSING_INIT_PREFIX));
        r.push(Instr::CGetL(Local::Reserved(CONST_NAME_PARAM)));
        r.push(Instr::StringLit(MISSING_INIT_SUFFIX));
        r.push(Instr::ConcatN(3));
        r.push(Instr::Fatal(FatalOp::Runtime));
        assert(tail.len() == 0);
        r
    } else {
        let mut r: Vec<Instr> = Vec::new();
        r.push(Instr::Label(consts[i].label));
        append_copy(&mut r, &consts[i].instrs);
        r.push(Instr::SrcLoc(*pos));
        r.push(Instr::RetC);
        let mut rest = make_cinit_instrs(consts, i + 1, default_label, pos);
        r.append(&mut rest);
        assert(tail.drop_first() =~= chain_input(initialized_view(consts@)).subrange(i + 1, consts.len() as int));
        r
    }
}

fn make_cases(consts: &Vec<InitializedConstant>, i: usize, default_label: Label) -> (r: SwitchCases)
    requires
        i <= consts.len(),
    ensures
        r.cases() == cinit_cases(initialized_view(consts@), default_label).subrange(i as int, consts.len() + 1),
    decreases consts.len() - i,
{
    let ghost all = cinit_cases(initialized_view(consts@), default_label);
    if i == consts.len() {
        let d = DEFAULT_CASE.to_owned();
        let r = SwitchCases::Case(d, default_label, Box::new(SwitchCases::End));
        assert(SwitchCases::End.cases() =~= Seq::<(Seq<char>, Label)>::empty());
        assert(r.cases() =~= all.subrange(i as int, consts.len() + 1));
        r
    } else {
        let rest = make_cases(consts, i + 1, default_label);
        let r = SwitchCases::Case(consts[i].name.clone(), consts[i].label, Box::new(rest));
        assert(r.cases() =~= all.subrange(i as int, consts.len() + 1));
        r
    }
}

/// The body of the constant dispatch: the constant name is loaded and
/// switched on, then the case chain follows; all after a position marker.
pub open spec fn cinit_body(cs: Seq<(Seq<char>, Label, Seq<Instr>)>, default_label: Label, pos: Pos, cases: SwitchCases) -> Seq<
    Instr,
> {
    emit_pos_spec(pos) + seq![Instr::CGetL(Local::Reserved(CONST_NAME_PARAM)), Instr::SSwitch(cases)]
        + cinit_chain(chain_input(cs), default_label, pos)
}

/// `m` is the constant dispatch over `cs`: a static private method taking
/// the constant's name, abstract in interfaces.
pub open spec fn is_cinit_method(
    m: MethodRecord,
    cs: Seq<(Seq<char>, Label, Seq<Instr>)>,
    default_label: Label,
    pos: Pos,
    span: Span,
    is_interface: bool,
) -> bool {
    &&& m.body.instrs@.len() >= 3
    &&& m.body.instrs@[2] matches Instr::SSwitch(cases) && cases.cases() == cinit_cases(cs, default_label)
        && is_generated_method(
        m,
        CINIT_NAME@,
        true,
        Visibility::Private,
        is_interface,
        span,
        Coeffects::Default,
        cinit_body(cs, default_label, pos, cases),
    )
    &&& m.body.params@.len() == 1
    &&& m.body.params@[0].name@ == CONST_NAME_PARAM@
    &&& m.body.params@[0].type_constraint is None
}

/// The constant dispatch over the constants with an initializer.
pub fn make_cinit_method(
    e: &mut Emitter,
    consts: &Vec<InitializedConstant>,
    default_label: Label,
    pos: &Pos,
    span: Span,
    is_interface: bool,
) -> (r: MethodRecord)
    ensures
        is_cinit_method(r, initialized_view(consts@), default_label, *pos, span, is_interface),
        final(e).next_label == old(e).next_label,
        final(e).systemlib == old(e).systemlib,
        final(e).options == old(e).options,
        final(e).symbol_refs == old(e).symbol_refs,
{
    let cases = make_cases(consts, 0, default_label);
    assert(cinit_cases(initialized_view(consts@), default_label).subrange(0, consts.len() + 1) =~= cinit_cases(
        initialized_view(consts@),
        default_label,
    ));
    let ghost cases_v = cases;
    let mut body: Vec<Instr> = Vec::new();
    body.push(Instr::CGetL(Local::Reserved(CONST_NAME_PARAM)));
    body.push(Instr::SSwitch(cases));
    let mut chain = make_cinit_instrs(consts, 0, default_label, pos);
    assert(chain_input(initialized_view(consts@)).subrange(0, consts.len() as int) =~= chain_input(
        initialized_view(consts@),
    ));
    body.append(&mut chain);
    let instrs = emit_pos_then(pos, body);
    assert(instrs@ =~= cinit_body(initialized_view(consts@), default_label, *pos, cases_v));
    let mut params: Vec<Param> = Vec::new();
    params.push(Param { name: CONST_NAME_PARAM.to_owned(), type_constraint: None });
    make_86method(
        e,
        CINIT_NAME.to_owned(),
        params,
        true,
        Visibility::Private,
        is_interface,
        span,
        Coeffects::Default,
        instrs,
    )
}

/// The witnesses passed to the parent's bootstrap: the lowered type
/// arguments of the base, recorded, where the base has any; an empty list
/// otherwise.
pub open spec fn reified_extends_params_spec(base_has_targs: bool, targs: Seq<Instr>) -> Seq<Instr> {
    if base_has_targs {
        targs + seq![Instr::RecordReifiedGeneric]
    } else {
        seq![Instr::NewVec(0)]
    }
}

/// The bootstrap body: with own reified parameters, the witness count is
/// checked and the witnesses stored; with a base, the parent's bootstrap
/// is called; then a null is returned.
pub open spec fn reified_init_body_spec(
    num_reified: nat,
    has_base: bool,
    base_has_targs: bool,
    targs: Seq<Instr>,
) -> Seq<Instr> {
    let set_prop = if num_reified == 0 {
        Seq::empty()
    } else {
        seq![
            Instr::CGetL(Local::Reserved(INIT_METH_PARAM_NAME)),
            Instr::CheckReifiedGenericMismatch,
            Instr::CheckThis,
            Instr::CGetL(Local::Reserved(INIT_METH_PARAM_NAME)),
            Instr::BaseH,
            Instr::SetMPT(0, PROP_NAME),
            Instr::PopC,
        ]
    };
    let call_parent = if has_base {
        seq![Instr::NullUninit, Instr::NullUninit] + reified_extends_params_spec(base_has_targs, targs) + seq![
            Instr::FCallClsMethodSD(
                FcallArgs { has_generics: false, num_args: 1, num_rets: 1, async_eager_target: None },
                SpecialClsRef::Parent,
                INIT_METH_NAME,
            ),
            Instr::PopC,
        ]
    } else {
        Seq::empty()
    };
    set_prop + call_parent + seq![Instr::Null, Instr::RetC]
}

pub fn emit_reified_extends_params(base_has_targs: bool, targs: Vec<Instr>) -> (r: Vec<Instr>)
    ensures
        r@ == reified_extends_params_spec(base_has_targs, targs@),
{
    if base_has_targs {
        let mut r = targs;
        r.push(Instr::RecordReifiedGeneric);
        r
    } else {
        let mut r: Vec<Instr> = Vec::new();
        r.push(Instr::NewVec(0));
        r
    }
}

pub fn emit_reified_init_body(num_reified: usize, has_base: bool, base_has_targs: bool, targs: Vec<Instr>) -> (r:
    Vec<Instr>)
    ensures
        r@ == reified_init_body_spec(num_reified as nat, has_base, base_has_targs, targs@),
{
    let mut r: Vec<Instr> = Vec::new();
    if num_reified != 0 {
        r.push(Instr::CGetL(Local::Reserved(INIT_METH_PARAM_NAME)));
        r.push(Instr::CheckReifiedGenericMismatch);
        r.push(Instr::CheckThis);
        r.push(Instr::CGetL(Local::Reserved(INIT_METH_PARAM_NAME)));
        r.push(Instr::BaseH);
        r.push(Instr::SetMPT(0, PROP_NAME));
        r.push(Instr::PopC);
    }
    if has_base {
        r.push(Instr::NullUninit);
        r.push(Instr::NullUninit);
        let mut generic_arr = emit_reified_extends_params(base_has_targs, targs);
        r.append(&mut generic_arr);
        r.push(
            Instr::FCallClsMethodSD(
                FcallArgs { has_generics: false, num_args: 1, num_rets: 1, async_eager_target: None },
                SpecialClsRef::Parent,
                INIT_METH_NAME,
            ),
        );
        r.push(Instr::PopC);
    }
    r.push(Instr::Null);
    r.push(Instr::RetC);
    r
}

/// `m` is the reified-generics bootstrap: a protected instance method
/// taking the witnesses as a varray.
pub open spec fn is_reified_init_method(
    m: MethodRecord,
    num_reified: nat,
    has_base: bool,
    base_has_targs: bool,
    targs: Seq<Instr>,
    pos: Pos,
) -> bool {
    &&& is_generated_method(
        m,
        INIT_METH_NAME@,
        false,
        Visibility::Protected,
        false,
        Span { line_begin: pos.line_begin, line_end: pos.line_end },
        Coeffects::Pure,
        emit_pos_spec(pos) + reified_init_body_spec(num_reified, has_base, base_has_targs, targs),
    )
    &&& m.body.params@.len() == 1
    &&& m.body.params@[0].name@ == INIT_METH_PARAM_NAME@
    &&& m.body.params@[0].type_constraint matches Some(t) && t@ == VARRAY_TYPE@
}

/// The bootstrap of a class with `num_reified` reified parameters, whose
/// base (if `has_base`) has type arguments when `base_has_targs`; `targs`
/// are those arguments lowered as witnesses. None where there is nothing
/// to bootstrap.
pub fn emit_reified_init_method(
    e: &mut Emitter,
    num_reified: usize,
    has_base: bool,
    base_has_targs: bool,
    targs: Vec<Instr>,
    pos: &Pos,
) -> (r: Option<MethodRecord>)
    ensures
        r is Some <==> (num_reified != 0 || base_has_targs),
        r matches Some(m) ==> is_reified_init_method(m, num_reified as nat, has_base, base_has_targs, targs@, *pos),
        final(e).next_label == old(e).next_label,
        final(e).systemlib == old(e).systemlib,
        final(e).options == old(e).options,
        final(e).symbol_refs == old(e).symbol_refs,
        r is None ==> final(e).next_iterator == old(e).next_iterator,
{
    if num_reified == 0 && !base_has_targs {
        return None;
    }
    let mut params: Vec<Param> = Vec::new();
    params.push(Param { name: INIT_METH_PARAM_NAME.to_owned(), type_constraint: Some(VARRAY_TYPE.to_owned()) });
    let body = emit_reified_init_body(num_reified, has_base, base_has_targs, targs);
    let instrs = emit_pos_then(pos, body);
    Some(make_86method(
        e,
        INIT_METH_NAME.to_owned(),
        params,
        false,
        Visibility::Protected,
        false,
        Span::from_pos(pos),
        Coeffects::Pure,
        instrs,
    ))
}

} // verus!
