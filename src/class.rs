use vstd::prelude::*;

use itertools::Itertools;

use crate::emitter::Emitter;
use crate::error::{raise_fatal_parse, raise_fatal_runtime, EmitError};
use crate::hint::{hints_view, lemma_hints_view, Hint, HintModel};
use crate::instr::{FatalOp, Instr, Label, Pos, Span};
use crate::records::{MethodRecord, Visibility};
use crate::reified::{ReifyKind, Tparam};
use crate::string_utils::{
    contains_char, contains_name, eq_ignore_ascii_case, eq_ignore_ascii_case_spec, has_name, starts_with, strip_global_ns,
    strip_global_ns_spec, strip_ns, strip_ns_spec,
};
use crate::hhas_constant::{constant_matches, from_ast, ConstDecl, ConstInit, HhasConstant};
use crate::instr::copy_instrs;
use crate::synth::{
    emit_reified_init_method, is_cinit_method, is_init_method, is_reified_init_method, make_cinit_method,
    make_init_method, initialized_view, needs_init, InitKind, InitializedConstant, PropertyRecord, TypedValue,
};

verus! {

pub const BUILTIN_ENUM: &'static str = "HH\\BuiltinEnum";

pub const BUILTIN_ENUM_CLASS: &'static str = "HH\\BuiltinEnumClass";

pub const BUILTIN_ABSTRACT_ENUM_CLASS: &'static str = "HH\\BuiltinAbstractEnumClass";

pub const NOT_A_CLASS: &'static str = "__type_is_not_class__";

pub const RESERVED_NAME_PREFIX: &'static str = "Cannot use '";

pub const RESERVED_NAME_SUFFIX: &'static str = "' as class name as it is reserved";

pub const INTERFACE_USES_TRAIT: &'static str = "Interfaces cannot use traits";

pub const EXTENDS_CLOSURE: &'static str = "Class cannot extend Closure";

pub const CLOSURE_PREFIX: &'static str = "Closure$";

/// The marker of a class that the compiler synthesized.
pub const SPECIAL_CLASS_MARKER: char = '$';

/// Names that no class may take, in any namespace.
pub open spec fn reserved_global_names() -> Seq<&'static str> {
    seq!["callable", "self", "parent", "static"]
}

/// Names that no class may take in the global or the builtin namespace.
pub open spec fn reserved_hh_names() -> Seq<&'static str> {
    seq![
        "void",
        "noreturn",
        "int",
        "bool",
        "float",
        "num",
        "string",
        "resource",
        "mixed",
        "arraykey",
        "dynamic",
        "_",
        "null",
        "nonnull",
        "nothing",
        "this",
    ]
}

/// `n` is one of `names`, ASCII case aside.
pub open spec fn is_one_of(names: Seq<&'static str>, n: Seq<char>) -> bool {
    exists|i: int| 0 <= i < names.len() && eq_ignore_ascii_case_spec(n, #[trigger] names[i]@)
}

fn is_one_of_exec(names: &[&'static str], n: &str) -> (r: bool)
    ensures
        r == is_one_of(names@, n@),
{
    let mut i: usize = 0;
    while i < names.len()
        invariant
            i <= names.len(),
            forall|j: int| 0 <= j < i ==> !eq_ignore_ascii_case_spec(n@, #[trigger] names@[j]@),
        decreases names.len() - i,
    {
        if eq_ignore_ascii_case(n, names[i]) {
            return true;
        }
        i = i + 1;
    }
    false
}

fn is_reserved_global_name(n: &str) -> (r: bool)
    ensures
        r == is_one_of(reserved_global_names(), n@),
{
    let names: [&'static str; 4] = ["callable", "self", "parent", "static"];
    assert(names@ == reserved_global_names());
    is_one_of_exec(&names, n)
}

fn is_reserved_hh_name(n: &str) -> (r: bool)
    ensures
        r == is_one_of(reserved_hh_names(), n@),
{
    let names: [&'static str; 16] = [
        "void",
        "noreturn",
        "int",
        "bool",
        "float",
        "num",
        "string",
        "resource",
        "mixed",
        "arraykey",
        "dynamic",
        "_",
        "null",
        "nonnull",
        "nothing",
        "this",
    ];
    assert(names@ == reserved_hh_names());
    is_one_of_exec(&names, n)
}

/// The namespace is the global one or, in any ASCII case, `HH`.
pub open spec fn checks_hh_names(ns: Option<Seq<char>>) -> bool {
    match ns {
        None => true,
        Some(n) => eq_ignore_ascii_case_spec(n, "hh"@),
    }
}

/// A class named `name` in namespace `ns` takes a reserved name: the name
/// without its namespace is reserved globally, or in the builtin namespace
/// when the class is declared in the global or the builtin namespace.
/// Names that hold the synthesized-class marker are exempt.
pub open spec fn class_name_reserved(ns: Option<Seq<char>>, name: Seq<char>) -> bool {
    let bare = strip_ns_spec(name);
    &&& !name.contains(SPECIAL_CLASS_MARKER)
    &&& (is_one_of(reserved_global_names(), bare) || (checks_hh_names(ns) && is_one_of(reserved_hh_names(), bare)))
}

/// The message of the reserved-name error.
pub open spec fn reserved_name_message(name: Seq<char>) -> Seq<char> {
    let bare = strip_ns_spec(name);
    let shown = if is_one_of(reserved_global_names(), bare) {
        bare
    } else {
        strip_global_ns_spec(name)
    };
    RESERVED_NAME_PREFIX@ + shown + RESERVED_NAME_SUFFIX@
}

pub open spec fn opt_view(o: Option<String>) -> Option<Seq<char>> {
    match o {
        Some(s) => Some(s@),
        None => None,
    }
}

/// Rejects a class name that is reserved, with a parse fatal at `pos`.
pub fn validate_class_name(ns: &Option<String>, name: &String, pos: &Pos) -> (r: Result<(), EmitError>)
    ensures
        class_name_reserved(opt_view(*ns), name@) ==> (r matches Err(EmitError::Fatal(op, p, m)) && op
            == FatalOp::Parse && p == *pos && m@ == reserved_name_message(name@)),
        !class_name_reserved(opt_view(*ns), name@) ==> r is Ok,
{
    let is_special_class = contains_char(name.as_str(), SPECIAL_CLASS_MARKER);
    let check_hh_name = match ns {
        None => true,
        Some(n) => eq_ignore_ascii_case(n.as_str(), "hh"),
    };
    let bare = strip_ns(name.as_str());
    let is_reserved_global = is_reserved_global_name(bare.as_str());
    let name_is_reserved = !is_special_class && (is_reserved_global || (check_hh_name && is_reserved_hh_name(
        bare.as_str(),
    )));
    if name_is_reserved {
        let shown = if is_reserved_global {
            bare
        } else {
            strip_global_ns(name.as_str())
        };
        let mut message = RESERVED_NAME_PREFIX.to_owned();
        message.append(shown.as_str());
        message.append(RESERVED_NAME_SUFFIX);
        Err(raise_fatal_parse(pos, message))
    } else {
        Ok(())
    }
}

/// The class that a hint names: an applied name without a leading `\`.
pub open spec fn hint_to_class_spec(h: HintModel) -> Seq<char> {
    match h {
        HintModel::Apply(n, _) => strip_global_ns_spec(n),
        _ => NOT_A_CLASS@,
    }
}

pub fn hint_to_class(h: &Hint) -> (r: String)
    ensures
        r@ == hint_to_class_spec(h@),
{
    match h {
        Hint::Apply(n, _) => strip_global_ns(n.as_str()),
        _ => NOT_A_CLASS.to_owned(),
    }
}

pub open spec fn hints_to_classes_spec(hs: Seq<HintModel>) -> Seq<Seq<char>> {
    hs.map_values(|h: HintModel| hint_to_class_spec(h))
}

pub open spec fn names_view(v: Seq<String>) -> Seq<Seq<char>> {
    v.map_values(|s: String| s@)
}

fn hints_to_classes(hs: &Vec<Hint>) -> (r: Vec<String>)
    ensures
        names_view(r@) == hints_to_classes_spec(hints_view(hs)),
{
    proof {
        lemma_hints_view(hs);
    }
    let mut r: Vec<String> = Vec::new();
    let mut i: usize = 0;
    while i < hs.len()
        invariant
            i <= hs.len(),
            r@.len() == i,
            hints_view(hs).len() == hs.len(),
            forall|j: int| 0 <= j < hs.len() ==> #[trigger] hints_view(hs)[j] == hs@[j]@,
            forall|j: int| 0 <= j < i ==> #[trigger] r@[j]@ == hint_to_class_spec(hs@[j]@),
        decreases hs.len() - i,
    {
        r.push(hint_to_class(&hs[i]));
        i = i + 1;
    }
    assert(names_view(r@) =~= hints_to_classes_spec(hints_view(hs)));
    r
}

/// The interfaces that a class implements.
pub fn from_implements(implements: &Vec<Hint>) -> (r: Vec<String>)
    ensures
        names_view(r@) == hints_to_classes_spec(hints_view(implements)),
{
    hints_to_classes(implements)
}

/// The enums that an enum includes.
pub fn from_includes(includes: &Vec<Hint>) -> (r: Vec<String>)
    ensures
        names_view(r@) == hints_to_classes_spec(hints_view(includes)),
{
    hints_to_classes(includes)
}

/// The underlying type of an enum, as formatted.
pub fn from_enum_type(opt: Option<&EnumDecl>) -> (r: Option<String>)
    ensures
        opt_view(r) == match opt {
            Some(en) => Some(en.base@),
            None => None,
        },
{
    match opt {
        Some(en) => Some(en.base.clone()),
        None => None,
    }
}

/// The base class: the builtin base of its kind for an enum, the first
/// extended class otherwise.
pub open spec fn from_extends_spec(is_enum: bool, is_enum_class: bool, is_abstract: bool, extends: Seq<HintModel>) -> Option<
    Seq<char>,
> {
    if is_enum {
        if is_enum_class {
            if is_abstract {
                Some(BUILTIN_ABSTRACT_ENUM_CLASS@)
            } else {
                Some(BUILTIN_ENUM_CLASS@)
            }
        } else {
            Some(BUILTIN_ENUM@)
        }
    } else if extends.len() > 0 {
        Some(hint_to_class_spec(extends[0]))
    } else {
        None
    }
}

pub fn from_extends(is_enum: bool, is_enum_class: bool, is_abstract: bool, extends: &Vec<Hint>) -> (r: Option<String>)
    ensures
        opt_view(r) == from_extends_spec(is_enum, is_enum_class, is_abstract, hints_view(extends)),
{
    proof {
        lemma_hints_view(extends);
    }
    if is_enum {
        if is_enum_class {
            if is_abstract {
                Some(BUILTIN_ABSTRACT_ENUM_CLASS.to_owned())
            } else {
                Some(BUILTIN_ENUM_CLASS.to_owned())
            }
        } else {
            Some(BUILTIN_ENUM.to_owned())
        }
    } else if extends.len() > 0 {
        Some(hint_to_class(&extends[0]))
    } else {
        None
    }
}

#[derive(Debug, Clone, Copy, PartialEq, Eq)]
pub enum TraitReqKind {
    MustExtend,
    MustImplement,
}

/// A `require extends` or `require implements` of a trait or interface.
#[derive(Debug)]
pub struct RequireDecl {
    pub hint: Hint,
    pub is_extends: bool,
}

#[derive(Debug, PartialEq, Eq)]
pub struct Requirement {
    pub name: String,
    pub kind: TraitReqKind,
}

pub open spec fn requirement_matches(r: Requirement, d: RequireDecl) -> bool {
    &&& r.name@ == hint_to_class_spec(d.hint@)
    &&& r.kind == if d.is_extends {
        TraitReqKind::MustExtend
    } else {
        TraitReqKind::MustImplement
    }
}

pub fn from_class_elt_requirements(reqs: &Vec<RequireDecl>) -> (r: Vec<Requirement>)
    ensures
        r@.len() == reqs@.len(),
        forall|i: int| 0 <= i < reqs.len() ==> requirement_matches(#[trigger] r@[i], reqs@[i]),
{
    let mut r: Vec<Requirement> = Vec::new();
    let mut i: usize = 0;
    while i < reqs.len()
        invariant
            i <= reqs.len(),
            r@.len() == i,
            forall|j: int| 0 <= j < i ==> requirement_matches(#[trigger] r@[j], reqs@[j]),
        decreases reqs.len() - i,
    {
        let kind = if reqs[i].is_extends {
            TraitReqKind::MustExtend
        } else {
            TraitReqKind::MustImplement
        };
        r.push(Requirement { name: hint_to_class(&reqs[i].hint), kind });
        i = i + 1;
    }
    r
}

pub fn from_class_elt_constants(consts: Vec<ConstDecl>) -> (r: Vec<HhasConstant>)
    ensures
        r@.len() == consts@.len(),
        forall|i: int|
            0 <= i < consts.len() ==> constant_matches(
                #[trigger] r@[i],
                consts@[i].name,
                consts@[i].is_abstract,
                consts@[i].init,
            ),
{
    let ghost orig = consts@;
    let n = consts.len();
    let mut rest = consts;
    let mut r: Vec<HhasConstant> = Vec::new();
    let mut k: usize = 0;
    while k < n
        invariant
            k <= n,
            n == orig.len(),
            rest@ == orig.subrange(k as int, n as int),
            r@.len() == k,
            forall|j: int|
                0 <= j < k ==> constant_matches(#[trigger] r@[j], orig[j].name, orig[j].is_abstract, orig[j].init),
        decreases n - k,
    {
        let c = rest.remove(0);
        assert(c == orig[k as int]);
        let ConstDecl { name, is_abstract, init } = c;
        r.push(from_ast(name, is_abstract, init));
        assert(rest@ =~= orig.subrange(k + 1, n as int));
        k = k + 1;
    }
    r
}

/// What the lowering of a type constant's hint produced: a type structure,
/// or, for a context constant, the recognized and unrecognized contexts.
#[derive(Debug)]
pub enum TypeConstInit {
    TypeStructure(TypedValue),
    Contexts(Vec<String>, Vec<String>),
}

/// A type or context constant as declared: concrete, or abstract with an
/// optional default; `initializer` is its lowered value or default.
#[derive(Debug)]
pub struct TypeConstDecl {
    pub name: String,
    pub is_ctx: bool,
    pub is_concrete: bool,
    pub initializer: Option<TypeConstInit>,
}

#[derive(Debug, PartialEq, Eq)]
pub struct TypeConstantRecord {
    pub name: String,
    pub initializer: Option<TypedValue>,
    pub is_abstract: bool,
}

#[derive(Debug, PartialEq, Eq)]
pub struct CtxConstantRecord {
    pub name: String,
    pub recognized: Vec<String>,
    pub unrecognized: Vec<String>,
    pub is_abstract: bool,
}

pub fn from_type_constant(tc: TypeConstDecl) -> (r: TypeConstantRecord)
    ensures
        r.name == tc.name,
        r.is_abstract == !tc.is_concrete,
        tc.initializer matches Some(TypeConstInit::TypeStructure(v)) ==> r.initializer == Some(v),
        !(tc.initializer matches Some(TypeConstInit::TypeStructure(_))) ==> r.initializer is None,
{
    let initializer = match tc.initializer {
        Some(TypeConstInit::TypeStructure(v)) => Some(v),
        _ => None,
    };
    TypeConstantRecord { name: tc.name, initializer, is_abstract: !tc.is_concrete }
}

pub fn from_ctx_constant(tc: TypeConstDecl) -> (r: CtxConstantRecord)
    ensures
        r.name == tc.name,
        r.is_abstract == !tc.is_concrete,
        tc.initializer matches Some(TypeConstInit::Contexts(rec, unrec)) ==> r.recognized == rec && r.unrecognized
            == unrec,
        !(tc.initializer matches Some(TypeConstInit::Contexts(_, _))) ==> r.recognized@.len() == 0
            && r.unrecognized@.len() == 0,
{
    let (recognized, unrecognized) = match tc.initializer {
        Some(TypeConstInit::Contexts(rec, unrec)) => (rec, unrec),
        _ => (Vec::new(), Vec::new()),
    };
    CtxConstantRecord { name: tc.name, recognized, unrecognized, is_abstract: !tc.is_concrete }
}

/// `s` with every item after its first occurrence left out.
pub open spec fn dedup_first(s: Seq<Seq<char>>) -> Seq<Seq<char>>
    decreases s.len(),
{
    if s.len() == 0 {
        Seq::empty()
    } else if s.drop_last().contains(s.last()) {
        dedup_first(s.drop_last())
    } else {
        dedup_first(s.drop_last()).push(s.last())
    }
}

/// Relies on itertools' `Itertools::unique`: it yields each item the first
/// time an equal one comes, in the order of the input.
#[verifier::external_body]
fn unique_names(names: Vec<String>) -> (r: Vec<String>)
    ensures
        names_view(r@) == dedup_first(names_view(names@)),
{
    names.into_iter().unique().collect()
}

/// Registers with the unit's symbol references every class that a class
/// refers to: its base, its interfaces, its traits and its requirements.
pub fn add_symbol_refs(
    e: &mut Emitter,
    base: &Option<String>,
    implements: &Vec<String>,
    uses: &Vec<String>,
    requirements: &Vec<Requirement>,
)
    ensures
        names_view(final(e).symbol_refs@) == names_view(old(e).symbol_refs@) + match base {
            Some(b) => seq![b@],
            None => Seq::empty(),
        } + names_view(implements@) + uses@.map_values(|u: String| strip_global_ns_spec(u@))
            + requirements@.map_values(|q: Requirement| q.name@),
        final(e).next_label == old(e).next_label,
        final(e).next_iterator == old(e).next_iterator,
        final(e).systemlib == old(e).systemlib,
        final(e).options == old(e).options,
{
    let ghost start = names_view(e.symbol_refs@);
    if let Some(b) = base {
        e.add_class_ref(b.clone());
    }
    let ghost s1 = names_view(e.symbol_refs@);
    assert(s1 =~= start + match base {
        Some(b) => seq![b@],
        None => Seq::empty(),
    });
    let mut i: usize = 0;
    while i < implements.len()
        invariant
            i <= implements.len(),
            names_view(e.symbol_refs@) =~= s1 + names_view(implements@.subrange(0, i as int)),
            e.next_label == old(e).next_label,
            e.next_iterator == old(e).next_iterator,
            e.systemlib == old(e).systemlib,
            e.options == old(e).options,
        decreases implements.len() - i,
    {
        let ghost before = e.symbol_refs@;
        e.add_class_ref(implements[i].clone());
        assert(names_view(e.symbol_refs@) =~= names_view(before).push(implements@[i as int]@));
        i = i + 1;
        assert(names_view(implements@.subrange(0, i as int)) =~= names_view(implements@.subrange(0, i - 1)).push(
            implements@[i - 1]@,
        ));
    }
    assert(implements@.subrange(0, implements.len() as int) =~= implements@);
    let ghost s2 = names_view(e.symbol_refs@);
    let mut i: usize = 0;
    while i < uses.len()
        invariant
            i <= uses.len(),
            names_view(e.symbol_refs@) =~= s2 + uses@.subrange(0, i as int).map_values(
                |u: String| strip_global_ns_spec(u@),
            ),
            e.next_label == old(e).next_label,
            e.next_iterator == old(e).next_iterator,
            e.systemlib == old(e).systemlib,
            e.options == old(e).options,
        decreases uses.len() - i,
    {
        let ghost before = e.symbol_refs@;
        e.add_class_ref(strip_global_ns(uses[i].as_str()));
        assert(names_view(e.symbol_refs@) =~= names_view(before).push(strip_global_ns_spec(uses@[i as int]@)));
        i = i + 1;
        assert(uses@.subrange(0, i as int).map_values(|u: String| strip_global_ns_spec(u@)) =~= uses@.subrange(
            0,
            i - 1,
        ).map_values(|u: String| strip_global_ns_spec(u@)).push(strip_global_ns_spec(uses@[i - 1]@)));
    }
    assert(uses@.subrange(0, uses.len() as int) =~= uses@);
    let ghost s3 = names_view(e.symbol_refs@);
    let mut i: usize = 0;
    while i < requirements.len()
        invariant
            i <= requirements.len(),
            names_view(e.symbol_refs@) =~= s3 + requirements@.subrange(0, i as int).map_values(
                |q: Requirement| q.name@,
            ),
            e.next_label == old(e).next_label,
            e.next_iterator == old(e).next_iterator,
            e.systemlib == old(e).systemlib,
            e.options == old(e).options,
        decreases requirements.len() - i,
    {
        let ghost before = e.symbol_refs@;
        e.add_class_ref(requirements[i].name.clone());
        assert(names_view(e.symbol_refs@) =~= names_view(before).push(requirements@[i as int].name@));
        i = i + 1;
        assert(requirements@.subrange(0, i as int).map_values(|q: Requirement| q.name@) =~= requirements@.subrange(
            0,
            i - 1,
        ).map_values(|q: Requirement| q.name@).push(requirements@[i - 1].name@));
    }
    assert(requirements@.subrange(0, requirements.len() as int) =~= requirements@);
}

#[derive(Debug, Clone, Copy, PartialEq, Eq)]
pub enum ClassishKind {
    /// A class; whether it is abstract.
    Class(bool),
    Interface,
    Trait,
    Enum,
    /// An enum class; whether it is abstract.
    EnumClass(bool),
}

/// A `use` of a trait.
#[derive(Debug)]
pub struct UseDecl {
    pub pos: Pos,
    pub hint: Hint,
}

/// `use T { T::m as visibility alias; }`
#[derive(Debug, PartialEq, Eq)]
pub struct UseAsAlias {
    pub trait_name: Option<String>,
    pub method: String,
    pub alias: Option<String>,
    pub visibility: Vec<Visibility>,
}

/// `use T1, T2 { T1::m insteadof T2; }`
#[derive(Debug, PartialEq, Eq)]
pub struct InsteadofAlias {
    pub trait_name: String,
    pub method: String,
    pub instead_of: Vec<String>,
}

/// An enum's base type, as formatted, and the enums it includes.
#[derive(Debug)]
pub struct EnumDecl {
    pub base: String,
    pub includes: Vec<Hint>,
}

/// A class declaration, with what the collaborators of this stage have
/// already made of its parts: properties, explicit methods and the methods
/// derived from XHP declarations and from memoized methods are lowered, and
/// `reified_extends_targs` holds the base's type arguments lowered as
/// generic witnesses in the class's scope.
#[derive(Debug)]
pub struct ClassDecl {
    pub name: String,
    pub name_pos: Pos,
    /// `None` for the global namespace.
    pub namespace: Option<String>,
    pub span: Pos,
    pub kind: ClassishKind,
    pub is_final: bool,
    pub tparams: Vec<Tparam>,
    pub extends: Vec<Hint>,
    pub implements: Vec<Hint>,
    pub uses: Vec<UseDecl>,
    pub use_as_alias: Vec<UseAsAlias>,
    pub insteadof_alias: Vec<InsteadofAlias>,
    pub reqs: Vec<RequireDecl>,
    pub enum_: Option<EnumDecl>,
    /// The names of the class's attributes, as emitted.
    pub attributes: Vec<String>,
    pub properties: Vec<PropertyRecord>,
    pub constants: Vec<ConstDecl>,
    pub typeconsts: Vec<TypeConstDecl>,
    pub methods: Vec<MethodRecord>,
    pub xhp_methods: Vec<MethodRecord>,
    pub memoize_wrappers: Vec<MethodRecord>,
    pub reified_extends_targs: Vec<Instr>,
    pub doc_comment: Option<String>,
}

#[derive(Debug, Clone, Copy, PartialEq, Eq)]
pub struct ClassFlags {
    pub is_abstract: bool,
    pub builtin: bool,
    pub is_final: bool,
    pub forbid_dynamic_props: bool,
    pub interface: bool,
    pub is_const: bool,
    pub no_override: bool,
    pub no_reified_init: bool,
    pub persistent: bool,
    pub sealed: bool,
    pub is_trait: bool,
    pub unique: bool,
    pub enum_class: bool,
    pub is_foldable: bool,
    pub dynamically_constructible: bool,
    pub is_enum: bool,
}

/// An emitted trait alias.
#[derive(Debug, PartialEq, Eq)]
pub struct TraitAlias {
    pub trait_name: Option<String>,
    pub method: String,
    pub alias: Option<String>,
    pub visibility: Vec<Visibility>,
}

/// An emitted trait precedence.
#[derive(Debug, PartialEq, Eq)]
pub struct TraitPrecedence {
    pub trait_name: String,
    pub method: String,
    pub instead_of: Vec<String>,
}

/// An emitted class.
#[derive(Debug, PartialEq, Eq)]
pub struct ClassRecord {
    pub attributes: Vec<String>,
    pub base: Option<String>,
    pub implements: Vec<String>,
    pub enum_includes: Vec<String>,
    pub name: String,
    pub span: Span,
    pub flags: ClassFlags,
    pub doc_comment: Option<String>,
    pub uses: Vec<String>,
    pub use_aliases: Vec<TraitAlias>,
    pub use_precedences: Vec<TraitPrecedence>,
    pub methods: Vec<MethodRecord>,
    pub enum_type: Option<String>,
    pub properties: Vec<PropertyRecord>,
    pub requirements: Vec<Requirement>,
    pub type_constants: Vec<TypeConstantRecord>,
    pub ctx_constants: Vec<CtxConstantRecord>,
    pub constants: Vec<HhasConstant>,
}

/// `r` is the alias `a` with the trait named without a leading `\`.
pub open spec fn alias_matches(r: TraitAlias, a: UseAsAlias) -> bool {
    &&& opt_view(r.trait_name) == match a.trait_name {
        Some(t) => Some(strip_global_ns_spec(t@)),
        None => None,
    }
    &&& r.method@ == a.method@
    &&& opt_view(r.alias) == opt_view(a.alias)
    &&& r.visibility@ == a.visibility@
}

/// `r` is the precedence `a` with the traits named without a leading `\`.
pub open spec fn precedence_matches(r: TraitPrecedence, a: InsteadofAlias) -> bool {
    &&& r.trait_name@ == strip_global_ns_spec(a.trait_name@)
    &&& r.method@ == a.method@
    &&& names_view(r.instead_of@) == a.instead_of@.map_values(|t: String| strip_global_ns_spec(t@))
}

/// The type constants (`ctx` false) or the context constants (`ctx` true)
/// among `ts`, in order.
pub open spec fn typeconsts_of(ts: Seq<TypeConstDecl>, ctx: bool) -> Seq<TypeConstDecl>
    decreases ts.len(),
{
    if ts.len() == 0 {
        Seq::empty()
    } else {
        typeconsts_of(ts.drop_last(), ctx) + if ts.last().is_ctx == ctx {
            seq![ts.last()]
        } else {
            Seq::empty()
        }
    }
}

pub open spec fn type_constant_matches(r: TypeConstantRecord, tc: TypeConstDecl) -> bool {
    &&& r.name == tc.name
    &&& r.is_abstract == !tc.is_concrete
    &&& match tc.initializer {
        Some(TypeConstInit::TypeStructure(v)) => r.initializer == Some(v),
        _ => r.initializer is None,
    }
}

pub open spec fn ctx_constant_matches(r: CtxConstantRecord, tc: TypeConstDecl) -> bool {
    &&& r.name == tc.name
    &&& r.is_abstract == !tc.is_concrete
    &&& match tc.initializer {
        Some(TypeConstInit::Contexts(rec, unrec)) => r.recognized == rec && r.unrecognized == unrec,
        _ => r.recognized@.len() == 0 && r.unrecognized@.len() == 0,
    }
}

pub const CONST_ATTR: &'static str = "__Const";

pub const SEALED_ATTR: &'static str = "__Sealed";

pub const ENUM_CLASS_ATTR: &'static str = "__EnumClass";

pub const FOLDABLE_ATTR: &'static str = "__IsFoldable";

pub const DYNAMICALLY_CONSTRUCTIBLE_ATTR: &'static str = "__DynamicallyConstructible";

pub open spec fn is_closure_name(name: Seq<char>) -> bool {
    CLOSURE_PREFIX@.len() <= name.len() && name.subrange(0, CLOSURE_PREFIX@.len() as int) == CLOSURE_PREFIX@
}

pub open spec fn kind_is_abstract(kind: ClassishKind) -> bool {
    match kind {
        ClassishKind::Class(a) => a,
        ClassishKind::EnumClass(a) => a,
        _ => false,
    }
}

/// The class is an enum or enum class with an enum declaration.
pub open spec fn has_enum_type(c: ClassDecl) -> bool {
    (c.kind is Enum || c.kind is EnumClass) && c.enum_ is Some
}

/// The base class of `c`; interfaces have none.
pub open spec fn base_spec(c: ClassDecl) -> Option<Seq<char>> {
    if c.kind is Interface {
        None
    } else {
        from_extends_spec(has_enum_type(c), c.kind is EnumClass, kind_is_abstract(c.kind), hints_view(&c.extends))
    }
}

/// The position of the first `use` that names a trait, if any.
pub open spec fn first_trait_use(uses: Seq<UseDecl>) -> Option<Pos>
    decreases uses.len(),
{
    if uses.len() == 0 {
        None
    } else if uses[0].hint@ is Apply {
        Some(uses[0].pos)
    } else {
        first_trait_use(uses.drop_first())
    }
}

/// The traits that `uses` name, without a leading `\`, in order.
pub open spec fn trait_names(uses: Seq<UseDecl>) -> Seq<Seq<char>>
    decreases uses.len(),
{
    if uses.len() == 0 {
        Seq::empty()
    } else {
        trait_names(uses.drop_last()) + match uses.last().hint@ {
            HintModel::Apply(n, _) => seq![strip_global_ns_spec(n)],
            _ => Seq::empty(),
        }
    }
}

/// The class extends the builtin closure class without being a closure.
pub open spec fn extends_closure(c: ClassDecl) -> bool {
    &&& !is_closure_name(c.name@)
    &&& base_spec(c) matches Some(b) && eq_ignore_ascii_case_spec(b, "closure"@)
}

pub open spec fn num_reified(tparams: Seq<Tparam>) -> nat
    decreases tparams.len(),
{
    if tparams.len() == 0 {
        0
    } else {
        num_reified(tparams.drop_last()) + if tparams.last().reified is Erased {
            0nat
        } else {
            1nat
        }
    }
}

/// The first extended class has type arguments.
pub open spec fn base_has_targs(c: ClassDecl) -> bool {
    first_has_targs_spec(c.extends@)
}

pub open spec fn first_has_targs_spec(extends: Seq<Hint>) -> bool {
    &&& extends.len() > 0
    &&& extends[0]@ matches HintModel::Apply(_, args) && args.len() > 0
}

/// The class gets a reified-generics bootstrap.
pub open spec fn has_reified_init(c: ClassDecl, systemlib: bool) -> bool {
    &&& !(systemlib || is_closure_name(c.name@) || c.kind is Interface || c.kind is Trait)
    &&& (num_reified(c.tparams@) != 0 || base_has_targs(c))
}

/// The concrete constants whose initializers could not be folded, in order.
pub open spec fn lowered_consts(cs: Seq<ConstDecl>) -> Seq<(Seq<char>, Seq<Instr>)>
    decreases cs.len(),
{
    if cs.len() == 0 {
        Seq::empty()
    } else {
        lowered_consts(cs.drop_last()) + match cs.last().init {
            Some(ConstInit::Lowered(code)) if !cs.last().is_abstract => seq![(cs.last().name@, code@)],
            _ => Seq::empty(),
        }
    }
}

/// Those constants with their dispatch labels, numbered from 0.
pub open spec fn labelled(ls: Seq<(Seq<char>, Seq<Instr>)>) -> Seq<(Seq<char>, Label, Seq<Instr>)> {
    Seq::new(ls.len(), |i: int| (ls[i].0, Label { id: i as u64 }, ls[i].1))
}

#[derive(Debug, Clone, Copy, PartialEq, Eq)]
pub enum GeneratedMethod {
    ReifiedInit,
    Init(InitKind),
    Cinit,
}

/// The generated methods of `c`, in order: the reified-generics bootstrap,
/// the three property initializers, the constant dispatch; each only where
/// it has work to do.
pub open spec fn opt(b: bool, g: GeneratedMethod) -> Seq<GeneratedMethod> {
    if b {
        seq![g]
    } else {
        Seq::empty()
    }
}

pub open spec fn expected_generated(c: ClassDecl, systemlib: bool) -> Seq<GeneratedMethod> {
    opt(has_reified_init(c, systemlib), GeneratedMethod::ReifiedInit) + opt(
        needs_init(c.properties@, InitKind::Instance),
        GeneratedMethod::Init(InitKind::Instance),
    ) + opt(needs_init(c.properties@, InitKind::Static), GeneratedMethod::Init(InitKind::Static)) + opt(
        needs_init(c.properties@, InitKind::Lsb),
        GeneratedMethod::Init(InitKind::Lsb),
    ) + opt(lowered_consts(c.constants@).len() > 0, GeneratedMethod::Cinit)
}

pub open spec fn generated_matches(m: MethodRecord, g: GeneratedMethod, c: ClassDecl) -> bool {
    let span = Span { line_begin: c.span.line_begin, line_end: c.span.line_end };
    let consts = labelled(lowered_consts(c.constants@));
    match g {
        GeneratedMethod::ReifiedInit => is_reified_init_method(
            m,
            num_reified(c.tparams@),
            c.extends@.len() > 0,
            base_has_targs(c),
            c.reified_extends_targs@,
            c.span,
        ),
        GeneratedMethod::Init(kind) => is_init_method(m, c.properties@, kind, span),
        GeneratedMethod::Cinit => is_cinit_method(
            m,
            consts,
            Label { id: consts.len() as u64 },
            c.span,
            span,
            c.kind is Interface,
        ),
    }
}

pub open spec fn flags_spec(c: ClassDecl, systemlib: bool, no_override: bool) -> ClassFlags {
    let attrs = c.attributes@;
    let is_const = has_name(attrs, CONST_ATTR@);
    ClassFlags {
        is_abstract: kind_is_abstract(c.kind),
        builtin: systemlib,
        is_final: c.is_final || c.kind is Trait,
        forbid_dynamic_props: is_const,
        interface: c.kind is Interface,
        is_const,
        no_override,
        no_reified_init: has_reified_init(c, systemlib) && c.extends@.len() == 0,
        persistent: systemlib,
        sealed: has_name(attrs, SEALED_ATTR@),
        is_trait: c.kind is Trait,
        unique: systemlib,
        enum_class: has_name(attrs, ENUM_CLASS_ATTR@),
        is_foldable: has_name(attrs, FOLDABLE_ATTR@),
        dynamically_constructible: has_name(attrs, DYNAMICALLY_CONSTRUCTIBLE_ATTR@),
        is_enum: has_enum_type(c) && !has_name(attrs, ENUM_CLASS_ATTR@),
    }
}

fn find_trait_use(uses: &Vec<UseDecl>) -> (r: Option<Pos>)
    ensures
        r == first_trait_use(uses@),
{
    let mut i: usize = 0;
    assert(uses@.subrange(0, uses.len() as int) =~= uses@);
    while i < uses.len()
        invariant
            i <= uses.len(),
            first_trait_use(uses@) == first_trait_use(uses@.subrange(i as int, uses.len() as int)),
        decreases uses.len() - i,
    {
        let ghost rest = uses@.subrange(i as int, uses.len() as int);
        assert(rest.drop_first() =~= uses@.subrange(i + 1, uses.len() as int));
        if let Hint::Apply(_, _) = &uses[i].hint {
            return Some(uses[i].pos);
        }
        i = i + 1;
    }
    None
}

fn collect_trait_names(uses: &Vec<UseDecl>) -> (r: Vec<String>)
    ensures
        names_view(r@) == trait_names(uses@),
{
    let mut r: Vec<String> = Vec::new();
    let mut i: usize = 0;
    while i < uses.len()
        invariant
            i <= uses.len(),
            names_view(r@) == trait_names(uses@.subrange(0, i as int)),
        decreases uses.len() - i,
    {
        assert(uses@.subrange(0, i + 1).drop_last() =~= uses@.subrange(0, i as int));
        let ghost before = r@;
        if let Hint::Apply(n, _) = &uses[i].hint {
            r.push(strip_global_ns(n.as_str()));
            assert(names_view(r@) =~= names_view(before).push(r@.last()@));
        }
        assert(names_view(r@) =~= trait_names(uses@.subrange(0, i + 1)));
        i = i + 1;
    }
    assert(uses@.subrange(0, uses.len() as int) =~= uses@);
    r
}

fn count_reified(tparams: &Vec<Tparam>) -> (r: usize)
    ensures
        r == num_reified(tparams@),
{
    let mut n: usize = 0;
    let mut i: usize = 0;
    while i < tparams.len()
        invariant
            i <= tparams.len(),
            n == num_reified(tparams@.subrange(0, i as int)),
            n <= i,
        decreases tparams.len() - i,
    {
        assert(tparams@.subrange(0, i + 1).drop_last() =~= tparams@.subrange(0, i as int));
        if !matches!(tparams[i].reified, ReifyKind::Erased) {
            n = n + 1;
        }
        i = i + 1;
    }
    assert(tparams@.subrange(0, tparams.len() as int) =~= tparams@);
    n
}

fn initialized_constants(e: &mut Emitter, consts: &Vec<HhasConstant>, Ghost(decls): Ghost<Seq<ConstDecl>>) -> (r: Vec<
    InitializedConstant,
>)
    requires
        old(e).next_label == 0,
        consts@.len() == decls.len(),
        decls.len() < u64::MAX,
        forall|i: int|
            0 <= i < decls.len() ==> constant_matches(
                #[trigger] consts@[i],
                decls[i].name,
                decls[i].is_abstract,
                decls[i].init,
            ),
    ensures
        initialized_view(r@) == labelled(lowered_consts(decls)),
        r@.len() == lowered_consts(decls).len(),
        r@.len() <= decls.len(),
        final(e).next_label == r@.len(),
        final(e).next_iterator == old(e).next_iterator,
        final(e).systemlib == old(e).systemlib,
        final(e).options == old(e).options,
        final(e).symbol_refs == old(e).symbol_refs,
{
    let mut r: Vec<InitializedConstant> = Vec::new();
    let mut i: usize = 0;
    while i < consts.len()
        invariant
            i <= consts.len(),
            consts@.len() == decls.len(),
            decls.len() < u64::MAX,
            forall|j: int|
                0 <= j < decls.len() ==> constant_matches(
                    #[trigger] consts@[j],
                    decls[j].name,
                    decls[j].is_abstract,
                    decls[j].init,
                ),
            initialized_view(r@) == labelled(lowered_consts(decls.subrange(0, i as int))),
            e.next_label == r@.len(),
            r@.len() <= i,
            e.next_iterator == old(e).next_iterator,
            e.systemlib == old(e).systemlib,
            e.options == old(e).options,
            e.symbol_refs == old(e).symbol_refs,
        decreases consts.len() - i,
    {
        assert(decls.subrange(0, i + 1).drop_last() =~= decls.subrange(0, i as int));
        assert(decls.subrange(0, i + 1).last() == decls[i as int]);
        let ghost before = r@;
        assert(constant_matches(consts@[i as int], decls[i as int].name, decls[i as int].is_abstract, decls[i as int].init));
        match &consts[i].initializer_instrs {
            Some(code) => {
                let ghost d = decls[i as int];
                assert(!d.is_abstract);
                assert(d.init matches Some(ConstInit::Lowered(c2)) && c2 == *code);
                assert(lowered_consts(decls.subrange(0, i + 1)) == lowered_consts(decls.subrange(0, i as int)) + seq![
                    (d.name@, code@),
                ]);
                let label = e.next_regular();
                r.push(InitializedConstant { name: consts[i].name.clone(), label, instrs: copy_instrs(code) });
                proof {
                    let lc = lowered_consts(decls.subrange(0, i as int));
                    let x = (d.name@, code@);
                    assert(lc + seq![x] =~= lc.push(x));
                    assert(initialized_view(before).len() == labelled(lc).len());
                    assert forall|j: int| 0 <= j < r@.len() implies #[trigger] initialized_view(r@)[j] == labelled(
                        lc.push(x),
                    )[j] by {
                        if j < before.len() {
                            assert(r@[j] == before[j]);
                            assert(initialized_view(before)[j] == labelled(lc)[j]);
                        }
                    }
                }
                assert(initialized_view(r@) =~= labelled(lowered_consts(decls.subrange(0, i + 1))));
            },
            None => {
                assert(lowered_consts(decls.subrange(0, i + 1)) =~= lowered_consts(decls.subrange(0, i as int)));
                assert(initialized_view(r@) =~= labelled(lowered_consts(decls.subrange(0, i + 1))));
            },
        }
        i = i + 1;
    }
    assert(decls.subrange(0, consts.len() as int) =~= decls);
    assert(initialized_view(r@).len() == labelled(lowered_consts(decls)).len());
    r
}

fn first_has_targs(extends: &Vec<Hint>) -> (r: bool)
    ensures
        r == first_has_targs_spec(extends@),
{
    if extends.len() > 0 {
        match &extends[0] {
            Hint::Apply(_, args) => {
                proof {
                    lemma_hints_view(args);
                }
                args.len() > 0
            },
            _ => false,
        }
    } else {
        false
    }
}

fn push_generated(
    gen: &mut Vec<MethodRecord>,
    m: Option<MethodRecord>,
    Ghost(exp): Ghost<Seq<GeneratedMethod>>,
    Ghost(g): Ghost<GeneratedMethod>,
    Ghost(present): Ghost<bool>,
    Ghost(c): Ghost<ClassDecl>,
)
    requires
        old(gen)@.len() == exp.len(),
        forall|i: int| 0 <= i < exp.len() ==> generated_matches(#[trigger] old(gen)@[i], exp[i], c),
        m is Some <==> present,
        m matches Some(x) ==> generated_matches(x, g, c),
    ensures
        final(gen)@.len() == (exp + opt(present, g)).len(),
        forall|i: int|
            0 <= i < final(gen)@.len() ==> generated_matches(#[trigger] final(gen)@[i], (exp + opt(present, g))[i], c),
{
    if let Some(x) = m {
        gen.push(x);
    } else {
        assert(exp + opt(present, g) =~= exp);
    }
}

/// `r` is the record of class `c`, as the lowering makes it.
pub open spec fn record_matches(r: ClassRecord, c: ClassDecl, systemlib: bool) -> bool {
    let gen = expected_generated(c, systemlib);
    let m = c.methods@.len() as int;
    let x = c.xhp_methods@.len() as int;
    let g = gen.len() as int;
    let implemented = if c.kind is Interface {
        hints_view(&c.extends)
    } else {
        hints_view(&c.implements)
    };
    &&& r.name@ == strip_global_ns_spec(c.name@)
    &&& r.attributes == c.attributes
    &&& r.span == Span { line_begin: c.span.line_begin, line_end: c.span.line_end }
    &&& r.doc_comment == c.doc_comment
    &&& opt_view(r.base) == base_spec(c)
    &&& names_view(r.implements@) == hints_to_classes_spec(implemented)
    &&& names_view(r.enum_includes@) == if has_enum_type(c) {
        hints_to_classes_spec(hints_view(&c.enum_->0.includes))
    } else {
        Seq::empty()
    }
    &&& opt_view(r.enum_type) == if has_enum_type(c) {
        Some(c.enum_->0.base@)
    } else {
        None
    }
    &&& names_view(r.uses@) == dedup_first(trait_names(c.uses@))
    &&& r.use_aliases@.len() == c.use_as_alias@.len()
    &&& forall|i: int| 0 <= i < c.use_as_alias@.len() ==> alias_matches(#[trigger] r.use_aliases@[i], c.use_as_alias@[i])
    &&& r.use_precedences@.len() == c.insteadof_alias@.len()
    &&& forall|i: int|
        0 <= i < c.insteadof_alias@.len() ==> precedence_matches(#[trigger] r.use_precedences@[i], c.insteadof_alias@[i])
    &&& r.properties == c.properties
    &&& r.constants@.len() == c.constants@.len()
    &&& forall|i: int|
        0 <= i < c.constants@.len() ==> constant_matches(
            #[trigger] r.constants@[i],
            c.constants@[i].name,
            c.constants@[i].is_abstract,
            c.constants@[i].init,
        )
    &&& r.requirements@.len() == c.reqs@.len()
    &&& forall|i: int| 0 <= i < c.reqs@.len() ==> requirement_matches(#[trigger] r.requirements@[i], c.reqs@[i])
    &&& r.type_constants@.len() == typeconsts_of(c.typeconsts@, false).len()
    &&& forall|i: int|
        0 <= i < r.type_constants@.len() ==> type_constant_matches(
            #[trigger] r.type_constants@[i],
            typeconsts_of(c.typeconsts@, false)[i],
        )
    &&& r.ctx_constants@.len() == typeconsts_of(c.typeconsts@, true).len()
    &&& forall|i: int|
        0 <= i < r.ctx_constants@.len() ==> ctx_constant_matches(
            #[trigger] r.ctx_constants@[i],
            typeconsts_of(c.typeconsts@, true)[i],
        )
    &&& r.methods@.len() == m + x + g + c.memoize_wrappers@.len()
    &&& r.methods@.subrange(0, m) == c.methods@
    &&& r.methods@.subrange(m, m + x) == c.xhp_methods@
    &&& forall|i: int| 0 <= i < g ==> generated_matches(#[trigger] r.methods@[m + x + i], gen[i], c)
    &&& r.methods@.subrange(m + x + g, r.methods@.len() as int) == c.memoize_wrappers@
    &&& r.flags == flags_spec(c, systemlib, exists|i: int| 0 <= i < r.methods@.len() && #[trigger] r.methods@[i].is_closure_body)
}

/// What class lowering resolves before it looks at members.
struct ClassHeader {
    name: String,
    uses: Vec<String>,
    use_aliases: Vec<TraitAlias>,
    use_precedences: Vec<TraitPrecedence>,
    enum_type: Option<String>,
    base: Option<String>,
    implements: Vec<String>,
    enum_includes: Vec<String>,
}

/// The three ways a class declaration is rejected, in the order they are
/// checked: a reserved name, an interface that uses a trait, a class that
/// extends the builtin closure class without being a closure.
pub open spec fn header_error(c: ClassDecl) -> Option<(FatalOp, Pos, Seq<char>)> {
    if class_name_reserved(opt_view(c.namespace), c.name@) {
        Some((FatalOp::Parse, c.name_pos, reserved_name_message(c.name@)))
    } else if c.kind is Interface && first_trait_use(c.uses@) is Some {
        Some((FatalOp::Parse, first_trait_use(c.uses@)->0, INTERFACE_USES_TRAIT@))
    } else if extends_closure(c) {
        Some((FatalOp::Runtime, c.name_pos, EXTENDS_CLOSURE@))
    } else {
        None
    }
}

pub open spec fn is_error(r: EmitError, err: (FatalOp, Pos, Seq<char>)) -> bool {
    r matches EmitError::Fatal(op, p, m) && op == err.0 && p == err.1 && m@ == err.2
}

fn class_header(class: &ClassDecl) -> (r: Result<ClassHeader, EmitError>)
    ensures
        header_error(*class) matches Some(err) ==> (r matches Err(x) && is_error(x, err)),
        header_error(*class) is None ==> (r matches Ok(h) && {
            &&& h.name@ == strip_global_ns_spec(class.name@)
            &&& opt_view(h.base) == base_spec(*class)
            &&& names_view(h.implements@) == hints_to_classes_spec(
                if class.kind is Interface {
                    hints_view(&class.extends)
                } else {
                    hints_view(&class.implements)
                },
            )
            &&& names_view(h.enum_includes@) == if has_enum_type(*class) {
                hints_to_classes_spec(hints_view(&class.enum_->0.includes))
            } else {
                Seq::empty()
            }
            &&& opt_view(h.enum_type) == if has_enum_type(*class) {
                Some(class.enum_->0.base@)
            } else {
                None
            }
            &&& names_view(h.uses@) == dedup_first(trait_names(class.uses@))
            &&& h.use_aliases@.len() == class.use_as_alias@.len()
            &&& forall|i: int|
                0 <= i < class.use_as_alias@.len() ==> alias_matches(
                    #[trigger] h.use_aliases@[i],
                    class.use_as_alias@[i],
                )
            &&& h.use_precedences@.len() == class.insteadof_alias@.len()
            &&& forall|i: int|
                0 <= i < class.insteadof_alias@.len() ==> precedence_matches(
                    #[trigger] h.use_precedences@[i],
                    class.insteadof_alias@[i],
                )
        }),
{
    validate_class_name(&class.namespace, &class.name, &class.name_pos)?;
    let is_closure = starts_with(class.name.as_str(), CLOSURE_PREFIX);
    let name = strip_global_ns(class.name.as_str());
    let is_interface = matches!(class.kind, ClassishKind::Interface);
    if is_interface {
        if let Some(p) = find_trait_use(&class.uses) {
            return Err(raise_fatal_parse(&p, INTERFACE_USES_TRAIT.to_owned()));
        }
    }
    let uses = unique_names(collect_trait_names(&class.uses));
    let mut use_aliases: Vec<TraitAlias> = Vec::new();
    let mut i: usize = 0;
    while i < class.use_as_alias.len()
        invariant
            i <= class.use_as_alias.len(),
            use_aliases@.len() == i,
            forall|j: int| 0 <= j < i ==> alias_matches(#[trigger] use_aliases@[j], class.use_as_alias@[j]),
        decreases class.use_as_alias.len() - i,
    {
        let a = &class.use_as_alias[i];
        let trait_name = match &a.trait_name {
            Some(t) => Some(strip_global_ns(t.as_str())),
            None => None,
        };
        let alias = match &a.alias {
            Some(t) => Some(t.clone()),
            None => None,
        };
        let visibility = a.visibility.clone();
        assert(visibility@ =~= a.visibility@);
        use_aliases.push(TraitAlias { trait_name, method: a.method.clone(), alias, visibility });
        i = i + 1;
    }
    let mut use_precedences: Vec<TraitPrecedence> = Vec::new();
    let mut i: usize = 0;
    while i < class.insteadof_alias.len()
        invariant
            i <= class.insteadof_alias.len(),
            use_precedences@.len() == i,
            forall|j: int| 0 <= j < i ==> precedence_matches(#[trigger] use_precedences@[j], class.insteadof_alias@[j]),
        decreases class.insteadof_alias.len() - i,
    {
        let a = &class.insteadof_alias[i];
        let mut instead_of: Vec<String> = Vec::new();
        let mut j: usize = 0;
        while j < a.instead_of.len()
            invariant
                j <= a.instead_of.len(),
                instead_of@.len() == j,
                forall|q: int| 0 <= q < j ==> #[trigger] instead_of@[q]@ == strip_global_ns_spec(a.instead_of@[q]@),
            decreases a.instead_of.len() - j,
        {
            instead_of.push(strip_global_ns(a.instead_of[j].as_str()));
            j = j + 1;
        }
        assert(names_view(instead_of@) =~= a.instead_of@.map_values(|t: String| strip_global_ns_spec(t@)));
        use_precedences.push(
            TraitPrecedence {
                trait_name: strip_global_ns(a.trait_name.as_str()),
                method: a.method.clone(),
                instead_of,
            },
        );
        i = i + 1;
    }
    let is_enum_kind = matches!(class.kind, ClassishKind::Enum) || matches!(class.kind, ClassishKind::EnumClass(_));
    let enum_typed = is_enum_kind && class.enum_.is_some();
    let enum_type = if enum_typed {
        from_enum_type(class.enum_.as_ref())
    } else {
        None
    };
    let is_enum_class = matches!(class.kind, ClassishKind::EnumClass(_));
    let is_abstract = match class.kind {
        ClassishKind::Class(a) => a,
        ClassishKind::EnumClass(a) => a,
        _ => false,
    };
    let base = if is_interface {
        None
    } else {
        from_extends(enum_typed, is_enum_class, is_abstract, &class.extends)
    };
    if !is_closure {
        if let Some(b) = &base {
            if eq_ignore_ascii_case(b.as_str(), "closure") {
                return Err(raise_fatal_runtime(&class.name_pos, EXTENDS_CLOSURE.to_owned()));
            }
        }
    }
    let implements = if is_interface {
        from_implements(&class.extends)
    } else {
        from_implements(&class.implements)
    };
    let enum_includes = if enum_typed {
        match &class.enum_ {
            Some(en) => from_includes(&en.includes),
            None => Vec::new(),
        }
    } else {
        Vec::new()
    };
    Ok(ClassHeader { name, uses, use_aliases, use_precedences, enum_type, base, implements, enum_includes })
}

/// The methods that class lowering generates for `c`, in order.
fn generated_methods(
    e: &mut Emitter,
    properties: &Vec<PropertyRecord>,
    constants: &Vec<HhasConstant>,
    tparams: &Vec<Tparam>,
    extends: &Vec<Hint>,
    reified_extends_targs: Vec<Instr>,
    class_pos: &Pos,
    is_interface: bool,
    is_trait: bool,
    is_closure: bool,
    Ghost(c): Ghost<ClassDecl>,
) -> (r: Vec<MethodRecord>)
    requires
        old(e).next_label == 0,
        c.constants@.len() < u64::MAX,
        properties == c.properties,
        *tparams == c.tparams,
        *extends == c.extends,
        reified_extends_targs == c.reified_extends_targs,
        *class_pos == c.span,
        is_interface == c.kind is Interface,
        is_trait == c.kind is Trait,
        is_closure == is_closure_name(c.name@),
        constants@.len() == c.constants@.len(),
        forall|i: int|
            0 <= i < c.constants@.len() ==> constant_matches(
                #[trigger] constants@[i],
                c.constants@[i].name,
                c.constants@[i].is_abstract,
                c.constants@[i].init,
            ),
    ensures
        r@.len() == expected_generated(c, old(e).systemlib).len(),
        forall|i: int|
            0 <= i < r@.len() ==> generated_matches(#[trigger] r@[i], expected_generated(c, old(e).systemlib)[i], c),
        final(e).systemlib == old(e).systemlib,
        final(e).options == old(e).options,
        final(e).symbol_refs == old(e).symbol_refs,
{
    let systemlib = e.systemlib;
    let span = Span::from_pos(class_pos);
    let pinit_method = make_init_method(e, properties, InitKind::Instance, span);
    let sinit_method = make_init_method(e, properties, InitKind::Static, span);
    let linit_method = make_init_method(e, properties, InitKind::Lsb, span);
    let ics = initialized_constants(e, constants, Ghost(c.constants@));
    let cinit_method = if ics.len() == 0 {
        None
    } else {
        let default_label = e.next_regular();
        Some(make_cinit_method(e, &ics, default_label, class_pos, span, is_interface))
    };
    let should_emit_reified_init = !(systemlib || is_closure || is_interface || is_trait);
    let base_has_targs = first_has_targs(extends);
    let reified_init_method = if should_emit_reified_init {
        emit_reified_init_method(
            e,
            count_reified(tparams),
            extends.len() > 0,
            base_has_targs,
            reified_extends_targs,
            class_pos,
        )
    } else {
        None
    };
    let mut gen: Vec<MethodRecord> = Vec::new();
    let ghost e0 = Seq::<GeneratedMethod>::empty();
    push_generated(
        &mut gen,
        reified_init_method,
        Ghost(e0),
        Ghost(GeneratedMethod::ReifiedInit),
        Ghost(has_reified_init(c, systemlib)),
        Ghost(c),
    );
    let ghost e1 = e0 + opt(has_reified_init(c, systemlib), GeneratedMethod::ReifiedInit);
    push_generated(
        &mut gen,
        pinit_method,
        Ghost(e1),
        Ghost(GeneratedMethod::Init(InitKind::Instance)),
        Ghost(needs_init(c.properties@, InitKind::Instance)),
        Ghost(c),
    );
    let ghost e2 = e1 + opt(needs_init(c.properties@, InitKind::Instance), GeneratedMethod::Init(InitKind::Instance));
    push_generated(
        &mut gen,
        sinit_method,
        Ghost(e2),
        Ghost(GeneratedMethod::Init(InitKind::Static)),
        Ghost(needs_init(c.properties@, InitKind::Static)),
        Ghost(c),
    );
    let ghost e3 = e2 + opt(needs_init(c.properties@, InitKind::Static), GeneratedMethod::Init(InitKind::Static));
    push_generated(
        &mut gen,
        linit_method,
        Ghost(e3),
        Ghost(GeneratedMethod::Init(InitKind::Lsb)),
        Ghost(needs_init(c.properties@, InitKind::Lsb)),
        Ghost(c),
    );
    let ghost e4 = e3 + opt(needs_init(c.properties@, InitKind::Lsb), GeneratedMethod::Init(InitKind::Lsb));
    push_generated(
        &mut gen,
        cinit_method,
        Ghost(e4),
        Ghost(GeneratedMethod::Cinit),
        Ghost(lowered_consts(c.constants@).len() > 0),
        Ghost(c),
    );
    assert(e4 + opt(lowered_consts(c.constants@).len() > 0, GeneratedMethod::Cinit) =~= expected_generated(
        c,
        systemlib,
    ));
    gen
}

fn split_typeconsts(typeconsts: Vec<TypeConstDecl>) -> (r: (Vec<TypeConstantRecord>, Vec<CtxConstantRecord>))
    ensures
        r.0@.len() == typeconsts_of(typeconsts@, false).len(),
        forall|i: int|
            0 <= i < r.0@.len() ==> type_constant_matches(#[trigger] r.0@[i], typeconsts_of(typeconsts@, false)[i]),
        r.1@.len() == typeconsts_of(typeconsts@, true).len(),
        forall|i: int|
            0 <= i < r.1@.len() ==> ctx_constant_matches(#[trigger] r.1@[i], typeconsts_of(typeconsts@, true)[i]),
{
    let ghost orig = typeconsts@;
    let mut type_constants: Vec<TypeConstantRecord> = Vec::new();
    let mut ctx_constants: Vec<CtxConstantRecord> = Vec::new();
    let n = typeconsts.len();
    let mut rest = typeconsts;
    let mut k: usize = 0;
    while k < n
        invariant
            k <= n,
            n == orig.len(),
            rest@ == orig.subrange(k as int, n as int),
            type_constants@.len() == typeconsts_of(orig.subrange(0, k as int), false).len(),
            forall|i: int|
                0 <= i < type_constants@.len() ==> type_constant_matches(
                    #[trigger] type_constants@[i],
                    typeconsts_of(orig.subrange(0, k as int), false)[i],
                ),
            ctx_constants@.len() == typeconsts_of(orig.subrange(0, k as int), true).len(),
            forall|i: int|
                0 <= i < ctx_constants@.len() ==> ctx_constant_matches(
                    #[trigger] ctx_constants@[i],
                    typeconsts_of(orig.subrange(0, k as int), true)[i],
                ),
        decreases n - k,
    {
        let tc = rest.remove(0);
        assert(tc == orig[k as int]);
        assert(orig.subrange(0, k + 1).drop_last() =~= orig.subrange(0, k as int));
        assert(rest@ =~= orig.subrange(k + 1, n as int));
        let ghost t0 = typeconsts_of(orig.subrange(0, k as int), false);
        let ghost c0 = typeconsts_of(orig.subrange(0, k as int), true);
        if tc.is_ctx {
            assert(typeconsts_of(orig.subrange(0, k + 1), true) == c0.push(tc));
            assert(typeconsts_of(orig.subrange(0, k + 1), false) =~= t0);
            ctx_constants.push(from_ctx_constant(tc));
        } else {
            assert(typeconsts_of(orig.subrange(0, k + 1), false) == t0.push(tc));
            assert(typeconsts_of(orig.subrange(0, k + 1), true) =~= c0);
            type_constants.push(from_type_constant(tc));
        }
        k = k + 1;
    }
    assert(orig.subrange(0, n as int) =~= orig);
    (type_constants, ctx_constants)
}

fn any_closure_body(methods: &Vec<MethodRecord>) -> (r: bool)
    ensures
        r == exists|j: int| 0 <= j < methods@.len() && #[trigger] methods@[j].is_closure_body,
{
    let mut i: usize = 0;
    while i < methods.len()
        invariant
            i <= methods.len(),
            forall|j: int| 0 <= j < i ==> !(#[trigger] methods@[j].is_closure_body),
        decreases methods.len() - i,
    {
        if methods[i].is_closure_body {
            return true;
        }
        i = i + 1;
    }
    false
}

/// Lowers a class declaration to a class record. Fails with a parse fatal
/// where the name is reserved, then where an interface uses a trait, and
/// with a run-time fatal where a class that is no closure extends the
/// builtin closure class.
#[verifier::rlimit(100)]
pub fn emit_class(e: &mut Emitter, class: ClassDecl) -> (r: Result<ClassRecord, EmitError>)
    requires
        class.constants@.len() < u64::MAX,
    ensures
        header_error(class) matches Some(err) ==> (r matches Err(x) && is_error(x, err)),
        header_error(class) is None ==> (r matches Ok(rec) && record_matches(rec, class, old(e).systemlib)
            && names_view(final(e).symbol_refs@) == names_view(old(e).symbol_refs@) + match rec.base {
            Some(b) => seq![b@],
            None => Seq::empty(),
        } + names_view(rec.implements@) + rec.uses@.map_values(|u: String| strip_global_ns_spec(u@))
            + rec.requirements@.map_values(|q: Requirement| q.name@)),
        r is Err ==> final(e).symbol_refs == old(e).symbol_refs,
        final(e).systemlib == old(e).systemlib,
{
    let ghost c = class;
    let systemlib = e.systemlib;
    let header = class_header(&class)?;
    let ClassHeader { name, uses, use_aliases, use_precedences, enum_type, base, implements, enum_includes } =
        header;
    let is_closure = starts_with(class.name.as_str(), CLOSURE_PREFIX);
    let is_trait = matches!(class.kind, ClassishKind::Trait);
    let is_interface = matches!(class.kind, ClassishKind::Interface);
    let is_abstract = match class.kind {
        ClassishKind::Class(a) => a,
        ClassishKind::EnumClass(a) => a,
        _ => false,
    };
    let is_enum_kind = matches!(class.kind, ClassishKind::Enum) || matches!(class.kind, ClassishKind::EnumClass(_));
    let enum_typed = is_enum_kind && class.enum_.is_some();
    let is_final = class.is_final || is_trait;
    let span = Span::from_pos(&class.span);
    let ClassDecl {
        name: _,
        name_pos: _,
        namespace: _,
        span: class_pos,
        kind: _,
        is_final: _,
        tparams,
        extends,
        implements: _,
        uses: _,
        use_as_alias: _,
        insteadof_alias: _,
        reqs,
        enum_: _,
        attributes,
        properties,
        constants,
        typeconsts,
        methods,
        xhp_methods,
        memoize_wrappers,
        reified_extends_targs,
        doc_comment,
    } = class;
    e.reset_labels();
    let constants = from_class_elt_constants(constants);
    let requirements = from_class_elt_requirements(&reqs);
    let mut gen = generated_methods(
        e,
        &properties,
        &constants,
        &tparams,
        &extends,
        reified_extends_targs,
        &class_pos,
        is_interface,
        is_trait,
        is_closure,
        Ghost(c),
    );
    let has_reified_init_method = !(systemlib || is_closure || is_interface || is_trait) && (count_reified(&tparams)
        != 0 || first_has_targs(&extends));
    let ghost g0 = gen@;
    let mut methods = methods;
    let mut xhp_methods = xhp_methods;
    let mut memoize_wrappers = memoize_wrappers;
    methods.append(&mut xhp_methods);
    methods.append(&mut gen);
    methods.append(&mut memoize_wrappers);
    let (type_constants, ctx_constants) = split_typeconsts(typeconsts);
    let is_const = contains_name(&attributes, CONST_ATTR);
    let flags = ClassFlags {
        is_abstract,
        builtin: systemlib,
        is_final,
        forbid_dynamic_props: is_const,
        interface: is_interface,
        is_const,
        no_override: any_closure_body(&methods),
        no_reified_init: has_reified_init_method && extends.len() == 0,
        persistent: systemlib,
        sealed: contains_name(&attributes, SEALED_ATTR),
        is_trait,
        unique: systemlib,
        enum_class: contains_name(&attributes, ENUM_CLASS_ATTR),
        is_foldable: contains_name(&attributes, FOLDABLE_ATTR),
        dynamically_constructible: contains_name(&attributes, DYNAMICALLY_CONSTRUCTIBLE_ATTR),
        is_enum: enum_typed && !contains_name(&attributes, ENUM_CLASS_ATTR),
    };
    add_symbol_refs(e, &base, &implements, &uses, &requirements);
    let rec = ClassRecord {
        attributes,
        base,
        implements,
        enum_includes,
        name,
        span,
        flags,
        doc_comment,
        uses,
        use_aliases,
        use_precedences,
        methods,
        enum_type,
        properties,
        requirements,
        type_constants,
        ctx_constants,
        constants,
    };
    proof {
        let gen = expected_generated(c, systemlib);
        let m = c.methods@.len() as int;
        let x = c.xhp_methods@.len() as int;
        let g = gen.len() as int;
        assert(rec.methods@.subrange(0, m) =~= c.methods@);
        assert(rec.methods@.subrange(m, m + x) =~= c.xhp_methods@);
        assert forall|i: int| 0 <= i < g implies generated_matches(#[trigger] rec.methods@[m + x + i], gen[i], c) by {
            assert(rec.methods@[m + x + i] == g0[i]);
        }
        assert(rec.methods@.subrange(m + x + g, rec.methods@.len() as int) =~= c.memoize_wrappers@);
    }
    Ok(rec)
}

/// The definitions of a program, as far as this stage is concerned.
#[derive(Debug)]
pub enum Def {
    Class(ClassDecl),
    /// Any other definition, which class lowering passes over.
    Other,
}

/// The class declarations among `defs`, in order.
pub open spec fn class_decls(defs: Seq<Def>) -> Seq<ClassDecl>
    decreases defs.len(),
{
    if defs.len() == 0 {
        Seq::empty()
    } else {
        class_decls(defs.drop_last()) + match defs.last() {
            Def::Class(c) => seq![c],
            Def::Other => Seq::empty(),
        }
    }
}

/// Lowers every class of a program, in order; stops at the first class
/// that is rejected.
#[verifier::loop_isolation(false)]
pub fn emit_classes_from_program(e: &mut Emitter, defs: Vec<Def>) -> (r: Result<Vec<ClassRecord>, EmitError>)
    requires
        forall|i: int|
            0 <= i < class_decls(defs@).len() ==> (#[trigger] class_decls(defs@)[i]).constants@.len() < u64::MAX,
    ensures
        r matches Ok(v) ==> v@.len() == class_decls(defs@).len() && forall|i: int|
            0 <= i < v@.len() ==> record_matches(#[trigger] v@[i], class_decls(defs@)[i], old(e).systemlib),
        (forall|i: int|
            0 <= i < class_decls(defs@).len() ==> #[trigger] header_error(class_decls(defs@)[i]) is None) ==> r is Ok,
        r is Err ==> exists|i: int|
            0 <= i < class_decls(defs@).len() && #[trigger] header_error(class_decls(defs@)[i]) is Some,
{
    let ghost orig = defs@;
    let ghost systemlib = e.systemlib;
    let n = defs.len();
    let mut rest = defs;
    let mut out: Vec<ClassRecord> = Vec::new();
    let mut k: usize = 0;
    while k < n
        invariant
            k <= n,
            n == orig.len(),
            rest@ == orig.subrange(k as int, n as int),
            e.systemlib == systemlib,
            forall|i: int|
                0 <= i < class_decls(orig).len() ==> (#[trigger] class_decls(orig)[i]).constants@.len() < u64::MAX,
            out@.len() == class_decls(orig.subrange(0, k as int)).len(),
            forall|j: int|
                0 <= j < out@.len() ==> record_matches(
                    #[trigger] out@[j],
                    class_decls(orig.subrange(0, k as int))[j],
                    systemlib,
                ),
            forall|j: int|
                0 <= j < out@.len() ==> #[trigger] header_error(class_decls(orig.subrange(0, k as int))[j]) is None,
        decreases n - k,
    {
        let ghost prefix = class_decls(orig.subrange(0, k as int));
        let ghost next = class_decls(orig.subrange(0, k + 1));
        proof {
            lemma_class_decls_prefix(orig, k as int);
        }
        let d = rest.remove(0);
        assert(d == orig[k as int]);
        assert(rest@ =~= orig.subrange(k + 1, n as int));
        if let Def::Class(cd) = d {
            assert(next == prefix.push(cd));
            assert(next[prefix.len() as int] == cd);
            proof {
                lemma_class_decls_prefix_in(orig, k + 1);
                assert(class_decls(orig)[prefix.len() as int] == cd);
            }
            let ghost cdg = cd;
            match emit_class(e, cd) {
                Ok(rec) => {
                    out.push(rec);
                },
                Err(err) => {
                    assert(header_error(class_decls(orig)[prefix.len() as int]) is Some);
                    assert(!(forall|i: int|
                        0 <= i < class_decls(orig).len() ==> #[trigger] header_error(class_decls(orig)[i]) is None));
                    return Err(err);
                },
            }
        } else {
            assert(next =~= prefix);
        }
        k = k + 1;
    }
    assert(orig.subrange(0, n as int) =~= orig);
    Ok(out)
}

proof fn lemma_class_decls_prefix(defs: Seq<Def>, k: int)
    requires
        0 <= k < defs.len(),
    ensures
        class_decls(defs.subrange(0, k + 1)) == class_decls(defs.subrange(0, k)) + match defs[k] {
            Def::Class(c) => seq![c],
            Def::Other => Seq::empty(),
        },
{
    assert(defs.subrange(0, k + 1).drop_last() =~= defs.subrange(0, k));
}

/// The classes of a prefix of `defs` are a prefix of its classes.
proof fn lemma_class_decls_prefix_in(defs: Seq<Def>, k: int)
    requires
        0 <= k <= defs.len(),
    ensures
        class_decls(defs.subrange(0, k)).len() <= class_decls(defs).len(),
        forall|j: int|
            0 <= j < class_decls(defs.subrange(0, k)).len() ==> #[trigger] class_decls(defs.subrange(0, k))[j]
                == class_decls(defs)[j],
    decreases defs.len() - k,
{
    if k < defs.len() {
        lemma_class_decls_prefix(defs, k);
        lemma_class_decls_prefix_in(defs, k + 1);
        let a = class_decls(defs.subrange(0, k));
        let b = class_decls(defs.subrange(0, k + 1));
        assert forall|j: int| 0 <= j < a.len() implies #[trigger] a[j] == class_decls(defs)[j] by {
            assert(a[j] == b[j]);
        }
    } else {
        assert(defs.subrange(0, k) =~= defs);
    }
}

} // verus!
