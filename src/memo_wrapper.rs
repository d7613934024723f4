use vstd::prelude::*;

use crate::emitter::{Emitter, Options};
use crate::error::{raise_fatal_runtime, EmitError};
use crate::instr::{emit_pos_spec, emit_pos_then, FcallArgs, Instr, Label, Local, MemoKeyRange, Pos, Span};
use crate::records::{Body, Coeffects, Param};
use crate::reified::{ReifyKind, Tparam};
use crate::string_utils::{contains_name, has_name};

verus! {

/// The local that holds the reified generics of a call.
pub const GENERICS_LOCAL_NAME: &'static str = "$0ReifiedGenerics";

pub const DYNAMICALLY_CALLABLE: &'static str = "__DynamicallyCallable";

pub const PROVENANCE_SKIP_FRAME: &'static str = "__ProvenanceSkipFrame";

pub const METH_CALLER: &'static str = "__MethCaller";

pub const IS_FOLDABLE: &'static str = "__IsFoldable";

pub const NO_INJECTION: &'static str = "__NoInjection";

pub const POLICY_SHARDED_MEMOIZE: &'static str = "__PolicyShardedMemoize";

pub const POLICY_SHARDED_MEMOIZE_LSB: &'static str = "__PolicyShardedMemoizeLSB";

pub const MEMOIZE_INOUT_MESSAGE: &'static str = "<<__Memoize>> cannot be used on functions with inout parameters";

pub const MEMOIZE_VARIADIC_MESSAGE: &'static str = "<<__Memoize>> cannot be used on functions with variable arguments";

/// A parameter of a declared function.
#[derive(Debug, PartialEq, Eq)]
pub struct FunParam {
    pub name: String,
    pub is_inout: bool,
    pub is_variadic: bool,
}

/// What the wrapper needs of a memoized function's declaration.
#[derive(Debug)]
pub struct FunDecl {
    pub name: String,
    pub name_pos: Pos,
    pub span: Pos,
    pub params: Vec<FunParam>,
    pub tparams: Vec<Tparam>,
    pub is_async: bool,
    pub readonly_ret: bool,
    /// The names of the user attributes, as emitted.
    pub attributes: Vec<String>,
    pub coeffects: Coeffects,
}

/// The attribute flags of an emitted function.
#[derive(Debug, Clone, Copy, PartialEq, Eq)]
pub struct FunAttrs {
    pub builtin: bool,
    pub dynamically_callable: bool,
    pub interceptable: bool,
    pub is_foldable: bool,
    pub is_meth_caller: bool,
    pub no_injection: bool,
    pub persistent: bool,
    pub provenance_skip_frame: bool,
    pub readonly_return: bool,
    pub unique: bool,
}

/// An emitted function.
#[derive(Debug, PartialEq, Eq)]
pub struct FunctionRecord {
    pub attributes: Vec<String>,
    pub name: String,
    pub body: Body,
    pub span: Span,
    pub coeffects: Coeffects,
    pub is_async: bool,
    pub attrs: FunAttrs,
}

/// What binding the wrapper's parameters takes, as lowered elsewhere: the
/// label that binding starts at, the parameter prologue, and the code that
/// fills in default values.
#[derive(Debug)]
pub struct ParamBinding {
    pub begin_label: Vec<Instr>,
    pub prolog: Vec<Instr>,
    pub default_value_setters: Vec<Instr>,
}

/// Functions may be renamed at run time, so calls to them cannot be bound early.
pub open spec fn is_interceptable_spec(opts: Options) -> bool {
    opts.jit_enable_rename_function && !opts.repo_authoritative
}

pub fn is_interceptable(opts: &Options) -> (r: bool)
    ensures
        r == is_interceptable_spec(*opts),
{
    opts.jit_enable_rename_function && !opts.repo_authoritative
}

/// The attribute flags of a function with user attributes `user_attrs`.
pub open spec fn fun_attrs_spec(
    systemlib: bool,
    opts: Options,
    readonly_ret: bool,
    user_attrs: Seq<String>,
    is_memoize_impl: bool,
) -> FunAttrs {
    let is_meth_caller = has_name(user_attrs, METH_CALLER@);
    FunAttrs {
        builtin: is_meth_caller || systemlib,
        dynamically_callable: systemlib || (has_name(user_attrs, DYNAMICALLY_CALLABLE@) && !is_memoize_impl),
        interceptable: is_interceptable_spec(opts),
        is_foldable: has_name(user_attrs, IS_FOLDABLE@),
        is_meth_caller,
        no_injection: has_name(user_attrs, NO_INJECTION@),
        persistent: systemlib,
        provenance_skip_frame: has_name(user_attrs, PROVENANCE_SKIP_FRAME@),
        readonly_return: readonly_ret,
        unique: systemlib,
    }
}

pub fn get_attrs_for_fun(e: &Emitter, fd: &FunDecl, user_attrs: &Vec<String>, is_memoize_impl: bool) -> (r:
    FunAttrs)
    ensures
        r == fun_attrs_spec(e.systemlib, e.options, fd.readonly_ret, user_attrs@, is_memoize_impl),
{
    let is_systemlib = e.systemlib;
    let is_dyn_call = is_systemlib || (contains_name(user_attrs, DYNAMICALLY_CALLABLE) && !is_memoize_impl);
    let is_meth_caller = contains_name(user_attrs, METH_CALLER);
    FunAttrs {
        builtin: is_meth_caller || is_systemlib,
        dynamically_callable: is_dyn_call,
        interceptable: is_interceptable(&e.options),
        is_foldable: contains_name(user_attrs, IS_FOLDABLE),
        is_meth_caller,
        no_injection: contains_name(user_attrs, NO_INJECTION),
        persistent: is_systemlib,
        provenance_skip_frame: contains_name(user_attrs, PROVENANCE_SKIP_FRAME),
        readonly_return: fd.readonly_ret,
        unique: is_systemlib,
    }
}

/// Stores the memo key of `local` in the unnamed slot `slot`.
pub open spec fn memo_key_spec(local: Local, slot: int) -> Seq<Instr> {
    seq![Instr::GetMemoKeyL(local), Instr::SetL(Local::Unnamed(slot as u64)), Instr::PopC]
}

/// The memo key of each parameter, in order, into the slots `first`, `first + 1`, ...
pub open spec fn param_code_sets_spec(names: Seq<String>, first: int) -> Seq<Instr>
    decreases names.len(),
{
    if names.len() == 0 {
        Seq::empty()
    } else {
        param_code_sets_spec(names.drop_last(), first) + memo_key_spec(
            Local::Named(names.last()),
            first + names.len() - 1,
        )
    }
}

/// Each parameter pushed, in order.
pub open spec fn param_code_gets_spec(names: Seq<String>) -> Seq<Instr>
    decreases names.len(),
{
    if names.len() == 0 {
        Seq::empty()
    } else {
        param_code_gets_spec(names.drop_last()).push(Instr::CGetL(Local::Named(names.last())))
    }
}

fn param_code_sets(names: &Vec<String>, first: u64) -> (r: Vec<Instr>)
    requires
        first + names.len() <= u64::MAX,
    ensures
        r@ == param_code_sets_spec(names@, first as int),
{
    let mut r: Vec<Instr> = Vec::new();
    let mut i: usize = 0;
    while i < names.len()
        invariant
            i <= names.len(),
            first + names.len() <= u64::MAX,
            r@ == param_code_sets_spec(names@.subrange(0, i as int), first as int),
        decreases names.len() - i,
    {
        assert(names@.subrange(0, i + 1).drop_last() =~= names@.subrange(0, i as int));
        r.push(Instr::GetMemoKeyL(Local::Named(names[i].clone())));
        r.push(Instr::SetL(Local::Unnamed(first + i as u64)));
        r.push(Instr::PopC);
        i = i + 1;
    }
    assert(names@.subrange(0, names.len() as int) =~= names@);
    r
}

fn param_code_gets(names: &Vec<String>) -> (r: Vec<Instr>)
    ensures
        r@ == param_code_gets_spec(names@),
{
    let mut r: Vec<Instr> = Vec::new();
    let mut i: usize = 0;
    while i < names.len()
        invariant
            i <= names.len(),
            r@ == param_code_gets_spec(names@.subrange(0, i as int)),
        decreases names.len() - i,
    {
        assert(names@.subrange(0, i + 1).drop_last() =~= names@.subrange(0, i as int));
        r.push(Instr::CGetL(Local::Named(names[i].clone())));
        i = i + 1;
    }
    assert(names@.subrange(0, names.len() as int) =~= names@);
    r
}

/// The cache lookup: a hit returns, and for an async function a result
/// that is still pending is returned at `suspended` keeping it suspended.
pub open spec fn cache_lookup_spec(is_async: bool, notfound: Label, suspended: Label, key: Option<MemoKeyRange>) -> Seq<
    Instr,
> {
    if is_async {
        seq![
            Instr::MemoGetEager(notfound, suspended, key),
            Instr::RetC,
            Instr::Label(suspended),
            Instr::RetCSuspended,
        ]
    } else {
        seq![Instr::MemoGet(notfound, key), Instr::RetC]
    }
}

/// The cache store after the call: for an async function the pending
/// result is stored and returned, and `eager` stores and returns a result
/// that finished eagerly.
pub open spec fn cache_store_spec(is_async: bool, eager: Label, key: Option<MemoKeyRange>) -> Seq<Instr> {
    if is_async {
        seq![
            Instr::MemoSet(key),
            Instr::RetCSuspended,
            Instr::Label(eager),
            Instr::MemoSetEager(key),
            Instr::RetC,
        ]
    } else {
        seq![Instr::MemoSet(key), Instr::RetC]
    }
}

pub open spec fn call_args_spec(has_generics: bool, num_args: int, is_async: bool, eager: Label) -> FcallArgs {
    FcallArgs {
        has_generics,
        num_args: num_args as u64,
        num_rets: 1,
        async_eager_target: if is_async {
            Some(eager)
        } else {
            None
        },
    }
}

/// The body of a wrapper with no key at all, its labels minted from `l0`.
pub open spec fn no_params_spec(deprecation: Seq<Instr>, renamed: String, is_async: bool, l0: int) -> Seq<Instr> {
    let notfound = Label { id: l0 as u64 };
    let suspended = Label { id: (l0 + 1) as u64 };
    let eager = Label { id: (l0 + 2) as u64 };
    deprecation + cache_lookup_spec(is_async, notfound, suspended, None) + seq![
        Instr::Label(notfound),
        Instr::NullUninit,
        Instr::NullUninit,
        Instr::FCallFuncD(call_args_spec(false, 0, is_async, eager), renamed),
    ] + cache_store_spec(is_async, eager, None)
}

/// The body of a keyed wrapper, its labels minted from `l0`.
pub open spec fn with_params_spec(
    names: Seq<String>,
    binding: (Seq<Instr>, Seq<Instr>, Seq<Instr>),
    deprecation: Seq<Instr>,
    renamed: String,
    is_async: bool,
    is_reified: bool,
    implicit_context: bool,
    l0: int,
) -> Seq<Instr> {
    let (begin_label, prolog, setters) = binding;
    let n = names.len() as int;
    let add_reified: int = if is_reified {
        1
    } else {
        0
    };
    let add_ic: int = if implicit_context {
        1
    } else {
        0
    };
    let first = n + add_reified;
    let key = Some(MemoKeyRange { first: first as u64, count: (n + add_reified + add_ic) as u64 });
    let notfound = Label { id: l0 as u64 };
    let suspended = Label { id: (l0 + 1) as u64 };
    let eager = Label { id: (l0 + 2) as u64 };
    let reified_key = if is_reified {
        memo_key_spec(Local::Reserved(GENERICS_LOCAL_NAME), n + first)
    } else {
        Seq::empty()
    };
    let ic_key = if implicit_context {
        seq![
            Instr::GetMemoAgnosticImplicitContext,
            Instr::SetL(Local::Unnamed((first + n + add_reified) as u64)),
            Instr::PopC,
        ]
    } else {
        Seq::empty()
    };
    let reified_get = if is_reified {
        seq![Instr::CGetL(Local::Reserved(GENERICS_LOCAL_NAME))]
    } else {
        Seq::empty()
    };
    begin_label + prolog + deprecation + param_code_sets_spec(names, first) + reified_key + ic_key
        + cache_lookup_spec(is_async, notfound, suspended, key) + seq![
        Instr::Label(notfound),
        Instr::NullUninit,
        Instr::NullUninit,
    ] + param_code_gets_spec(names) + reified_get + seq![
        Instr::FCallFuncD(call_args_spec(is_reified, n, is_async, eager), renamed),
    ] + cache_store_spec(is_async, eager, key) + setters
}

/// The wrapper body: the key-free form where there are no parameters, no
/// reified generics and no implicit context, the keyed form otherwise; it
/// starts with a position marker.
pub open spec fn memoize_code_spec(
    pos: Pos,
    names: Seq<String>,
    binding: (Seq<Instr>, Seq<Instr>, Seq<Instr>),
    deprecation: Seq<Instr>,
    renamed: String,
    is_async: bool,
    is_reified: bool,
    implicit_context: bool,
    l0: int,
) -> Seq<Instr> {
    emit_pos_spec(pos) + if names.len() == 0 && !is_reified && !implicit_context {
        no_params_spec(deprecation, renamed, is_async, l0)
    } else {
        with_params_spec(names, binding, deprecation, renamed, is_async, is_reified, implicit_context, l0)
    }
}

pub open spec fn binding_view(b: ParamBinding) -> (Seq<Instr>, Seq<Instr>, Seq<Instr>) {
    (b.begin_label@, b.prolog@, b.default_value_setters@)
}

fn push3(r: &mut Vec<Instr>, a: Instr, b: Instr, c: Instr)
    ensures
        final(r)@ == old(r)@ + seq![a, b, c],
{
    r.push(a);
    r.push(b);
    r.push(c);
}

fn append_cache_lookup(r: &mut Vec<Instr>, is_async: bool, notfound: Label, suspended: Label, key: Option<MemoKeyRange>)
    ensures
        final(r)@ == old(r)@ + cache_lookup_spec(is_async, notfound, suspended, key),
{
    if is_async {
        r.push(Instr::MemoGetEager(notfound, suspended, key));
        r.push(Instr::RetC);
        r.push(Instr::Label(suspended));
        r.push(Instr::RetCSuspended);
    } else {
        r.push(Instr::MemoGet(notfound, key));
        r.push(Instr::RetC);
    }
}

fn append_cache_store(r: &mut Vec<Instr>, is_async: bool, eager: Label, key: Option<MemoKeyRange>)
    ensures
        final(r)@ == old(r)@ + cache_store_spec(is_async, eager, key),
{
    r.push(Instr::MemoSet(key));
    if is_async {
        r.push(Instr::RetCSuspended);
        r.push(Instr::Label(eager));
        r.push(Instr::MemoSetEager(key));
        r.push(Instr::RetC);
    } else {
        r.push(Instr::RetC);
    }
}

fn make_memoize_function_no_params_code(
    e: &mut Emitter,
    deprecation_body: Vec<Instr>,
    renamed_id: &String,
    is_async: bool,
) -> (r: Vec<Instr>)
    requires
        old(e).next_label + 3 <= u64::MAX,
    ensures
        r@ == no_params_spec(deprecation_body@, *renamed_id, is_async, old(e).next_label as int),
        final(e).next_label == old(e).next_label + 3,
        final(e).next_iterator == old(e).next_iterator,
        final(e).systemlib == old(e).systemlib,
        final(e).options == old(e).options,
        final(e).symbol_refs == old(e).symbol_refs,
{
    let notfound = e.next_regular();
    let suspended_get = e.next_regular();
    let eager_set = e.next_regular();
    let fcall_args = FcallArgs {
        has_generics: false,
        num_args: 0,
        num_rets: 1,
        async_eager_target: if is_async {
            Some(eager_set)
        } else {
            None
        },
    };
    let mut r = deprecation_body;
    append_cache_lookup(&mut r, is_async, notfound, suspended_get, None);
    push3(&mut r, Instr::Label(notfound), Instr::NullUninit, Instr::NullUninit);
    r.push(Instr::FCallFuncD(fcall_args, renamed_id.clone()));
    append_cache_store(&mut r, is_async, eager_set, None);
    r
}

fn make_memoize_function_with_params_code(
    e: &mut Emitter,
    deprecation_body: Vec<Instr>,
    names: &Vec<String>,
    binding: ParamBinding,
    renamed_id: &String,
    is_async: bool,
    is_reified: bool,
    should_emit_implicit_context: bool,
) -> (r: Vec<Instr>)
    requires
        old(e).next_label + 3 <= u64::MAX,
        3 * names.len() + 3 <= u64::MAX,
    ensures
        r@ == with_params_spec(
            names@,
            binding_view(binding),
            deprecation_body@,
            *renamed_id,
            is_async,
            is_reified,
            should_emit_implicit_context,
            old(e).next_label as int,
        ),
        final(e).next_label == old(e).next_label + 3,
        final(e).next_iterator == old(e).next_iterator,
        final(e).systemlib == old(e).systemlib,
        final(e).options == old(e).options,
        final(e).symbol_refs == old(e).symbol_refs,
{
    let param_count = names.len() as u64;
    let notfound = e.next_regular();
    let suspended_get = e.next_regular();
    let eager_set = e.next_regular();
    // The reified generics are the first local after the parameters, so the
    // key starts one slot later when there are any.
    let add_reified: u64 = if is_reified {
        1
    } else {
        0
    };
    let add_implicit_context: u64 = if should_emit_implicit_context {
        1
    } else {
        0
    };
    let first_local_idx = param_count + add_reified;
    let key = Some(MemoKeyRange { first: first_local_idx, count: param_count + add_reified + add_implicit_context });
    let fcall_args = FcallArgs {
        has_generics: is_reified,
        num_args: param_count,
        num_rets: 1,
        async_eager_target: if is_async {
            Some(eager_set)
        } else {
            None
        },
    };
    let ParamBinding { begin_label, prolog, default_value_setters } = binding;
    let mut prolog = prolog;
    let mut deprecation_body = deprecation_body;
    let mut default_value_setters = default_value_setters;
    let mut r = begin_label;
    r.append(&mut prolog);
    r.append(&mut deprecation_body);
    let mut sets = param_code_sets(names, first_local_idx);
    r.append(&mut sets);
    if is_reified {
        push3(
            &mut r,
            Instr::GetMemoKeyL(Local::Reserved(GENERICS_LOCAL_NAME)),
            Instr::SetL(Local::Unnamed(param_count + first_local_idx)),
            Instr::PopC,
        );
    }
    if should_emit_implicit_context {
        // The last unnamed slot of the key.
        let local = first_local_idx + param_count + add_reified;
        push3(&mut r, Instr::GetMemoAgnosticImplicitContext, Instr::SetL(Local::Unnamed(local)), Instr::PopC);
    }
    append_cache_lookup(&mut r, is_async, notfound, suspended_get, key);
    push3(&mut r, Instr::Label(notfound), Instr::NullUninit, Instr::NullUninit);
    let mut gets = param_code_gets(names);
    r.append(&mut gets);
    if is_reified {
        r.push(Instr::CGetL(Local::Reserved(GENERICS_LOCAL_NAME)));
    }
    r.push(Instr::FCallFuncD(fcall_args, renamed_id.clone()));
    append_cache_store(&mut r, is_async, eager_set, key);
    r.append(&mut default_value_setters);
    r
}

/// The body of the caching wrapper around the renamed implementation
/// `renamed_id`, whose parameters are named `names`.
pub fn make_memoize_function_code(
    e: &mut Emitter,
    pos: &Pos,
    deprecation_body: Vec<Instr>,
    names: &Vec<String>,
    binding: ParamBinding,
    renamed_id: &String,
    is_async: bool,
    is_reified: bool,
    should_emit_implicit_context: bool,
) -> (r: Vec<Instr>)
    requires
        old(e).next_label + 3 <= u64::MAX,
        3 * names.len() + 3 <= u64::MAX,
    ensures
        r@ == memoize_code_spec(
            *pos,
            names@,
            binding_view(binding),
            deprecation_body@,
            *renamed_id,
            is_async,
            is_reified,
            should_emit_implicit_context,
            old(e).next_label as int,
        ),
        final(e).next_label == old(e).next_label + 3,
        final(e).next_iterator == old(e).next_iterator,
        final(e).systemlib == old(e).systemlib,
        final(e).options == old(e).options,
        final(e).symbol_refs == old(e).symbol_refs,
{
    let fun = if names.len() == 0 && !is_reified && !should_emit_implicit_context {
        make_memoize_function_no_params_code(e, deprecation_body, renamed_id, is_async)
    } else {
        make_memoize_function_with_params_code(
            e,
            deprecation_body,
            names,
            binding,
            renamed_id,
            is_async,
            is_reified,
            should_emit_implicit_context,
        )
    };
    emit_pos_then(pos, fun)
}

/// How many instructions of `s` call the function `f` by name.
pub open spec fn count_calls(s: Seq<Instr>, f: String) -> nat
    decreases s.len(),
{
    if s.len() == 0 {
        0
    } else {
        count_calls(s.drop_last(), f) + if s.last() matches Instr::FCallFuncD(_, g) && g == f {
            1nat
        } else {
            0nat
        }
    }
}

pub broadcast proof fn lemma_count_calls_add(a: Seq<Instr>, b: Seq<Instr>, f: String)
    ensures
        #[trigger] count_calls(a + b, f) == count_calls(a, f) + count_calls(b, f),
    decreases b.len(),
{
    if b.len() == 0 {
        assert(a + b =~= a);
    } else {
        assert((a + b).drop_last() =~= a + b.drop_last());
        lemma_count_calls_add(a, b.drop_last(), f);
    }
}

proof fn lemma_param_code_no_calls(names: Seq<String>, first: int, f: String)
    ensures
        count_calls(param_code_sets_spec(names, first), f) == 0,
        count_calls(param_code_gets_spec(names), f) == 0,
    decreases names.len(),
{
    broadcast use lemma_count_calls_add;

    reveal_with_fuel(count_calls, 4);
    if names.len() > 0 {
        lemma_param_code_no_calls(names.drop_last(), first, f);
        assert(param_code_gets_spec(names) == param_code_gets_spec(names.drop_last()) + seq![
            Instr::CGetL(Local::Named(names.last())),
        ]);
    }
}

proof fn lemma_no_calls_in_fixed_parts(
    renamed: String,
    is_async: bool,
    is_reified: bool,
    implicit_context: bool,
    notfound: Label,
    suspended: Label,
    eager: Label,
    key: Option<MemoKeyRange>,
    pos: Pos,
    reified_slot: int,
    ic_slot: int,
)
    ensures
        count_calls(cache_lookup_spec(is_async, notfound, suspended, key), renamed) == 0,
        count_calls(cache_store_spec(is_async, eager, key), renamed) == 0,
        count_calls(seq![Instr::Label(notfound), Instr::NullUninit, Instr::NullUninit], renamed) == 0,
        count_calls(emit_pos_spec(pos), renamed) == 0,
        count_calls(memo_key_spec(Local::Reserved(GENERICS_LOCAL_NAME), reified_slot), renamed) == 0,
        count_calls(
            seq![
                Instr::GetMemoAgnosticImplicitContext,
                Instr::SetL(Local::Unnamed(ic_slot as u64)),
                Instr::PopC,
            ],
            renamed,
        ) == 0,
        count_calls(seq![Instr::CGetL(Local::Reserved(GENERICS_LOCAL_NAME))], renamed) == 0,
        count_calls(Seq::empty(), renamed) == 0,
{
    reveal_with_fuel(count_calls, 6);
}

proof fn lemma_one_call(a: FcallArgs, renamed: String)
    ensures
        count_calls(seq![Instr::FCallFuncD(a, renamed)], renamed) == 1,
{
    reveal_with_fuel(count_calls, 2);
}

proof fn lemma_no_params_calls_once(deprecation: Seq<Instr>, renamed: String, is_async: bool, l0: int)
    requires
        count_calls(deprecation, renamed) == 0,
    ensures
        count_calls(no_params_spec(deprecation, renamed, is_async, l0), renamed) == 1,
{
    let notfound = Label { id: l0 as u64 };
    let suspended = Label { id: (l0 + 1) as u64 };
    let eager = Label { id: (l0 + 2) as u64 };
    let look = cache_lookup_spec(is_async, notfound, suspended, None);
    let store = cache_store_spec(is_async, eager, None);
    let pre = seq![Instr::Label(notfound), Instr::NullUninit, Instr::NullUninit];
    let c = seq![Instr::FCallFuncD(call_args_spec(false, 0, is_async, eager), renamed)];
    let mid = seq![
        Instr::Label(notfound),
        Instr::NullUninit,
        Instr::NullUninit,
        Instr::FCallFuncD(call_args_spec(false, 0, is_async, eager), renamed),
    ];
    lemma_no_calls_in_fixed_parts(renamed, is_async, false, false, notfound, suspended, eager, None, Pos {
        line_begin: 0,
        col_begin: 0,
        line_end: 0,
        col_end: 0,
    }, 0, 0);
    lemma_one_call(call_args_spec(false, 0, is_async, eager), renamed);
    assert(mid =~= pre + c);
    lemma_count_calls_add(pre, c, renamed);
    lemma_count_calls_add(deprecation, look, renamed);
    lemma_count_calls_add(deprecation + look, mid, renamed);
    lemma_count_calls_add(deprecation + look + mid, store, renamed);
}

proof fn lemma_with_params_calls_once(
    names: Seq<String>,
    binding: (Seq<Instr>, Seq<Instr>, Seq<Instr>),
    deprecation: Seq<Instr>,
    renamed: String,
    is_async: bool,
    is_reified: bool,
    implicit_context: bool,
    l0: int,
)
    requires
        count_calls(binding.0, renamed) == 0,
        count_calls(binding.1, renamed) == 0,
        count_calls(binding.2, renamed) == 0,
        count_calls(deprecation, renamed) == 0,
    ensures
        count_calls(
            with_params_spec(names, binding, deprecation, renamed, is_async, is_reified, implicit_context, l0),
            renamed,
        ) == 1,
{
    let (b, pr, setters) = binding;
    let n = names.len() as int;
    let add_reified: int = if is_reified {
        1
    } else {
        0
    };
    let add_ic: int = if implicit_context {
        1
    } else {
        0
    };
    let first = n + add_reified;
    let key = Some(MemoKeyRange { first: first as u64, count: (n + add_reified + add_ic) as u64 });
    let notfound = Label { id: l0 as u64 };
    let suspended = Label { id: (l0 + 1) as u64 };
    let eager = Label { id: (l0 + 2) as u64 };
    let reified_key = if is_reified {
        memo_key_spec(Local::Reserved(GENERICS_LOCAL_NAME), n + first)
    } else {
        Seq::empty()
    };
    let ic_key = if implicit_context {
        seq![
            Instr::GetMemoAgnosticImplicitContext,
            Instr::SetL(Local::Unnamed((first + n + add_reified) as u64)),
            Instr::PopC,
        ]
    } else {
        Seq::empty()
    };
    let reified_get = if is_reified {
        seq![Instr::CGetL(Local::Reserved(GENERICS_LOCAL_NAME))]
    } else {
        Seq::empty()
    };
    let look = cache_lookup_spec(is_async, notfound, suspended, key);
    let store = cache_store_spec(is_async, eager, key);
    let pre = seq![Instr::Label(notfound), Instr::NullUninit, Instr::NullUninit];
    let c = seq![Instr::FCallFuncD(call_args_spec(is_reified, n, is_async, eager), renamed)];
    let sets = param_code_sets_spec(names, first);
    let gets = param_code_gets_spec(names);
    lemma_param_code_no_calls(names, first, renamed);
    lemma_no_calls_in_fixed_parts(
        renamed,
        is_async,
        is_reified,
        implicit_context,
        notfound,
        suspended,
        eager,
        key,
        Pos { line_begin: 0, col_begin: 0, line_end: 0, col_end: 0 },
        n + first,
        first + n + add_reified,
    );
    lemma_one_call(call_args_spec(is_reified, n, is_async, eager), renamed);
    let s1 = b + pr;
    lemma_count_calls_add(b, pr, renamed);
    let s2 = s1 + deprecation;
    lemma_count_calls_add(s1, deprecation, renamed);
    let s3 = s2 + sets;
    lemma_count_calls_add(s2, sets, renamed);
    let s4 = s3 + reified_key;
    lemma_count_calls_add(s3, reified_key, renamed);
    let s5 = s4 + ic_key;
    lemma_count_calls_add(s4, ic_key, renamed);
    let s6 = s5 + look;
    lemma_count_calls_add(s5, look, renamed);
    let s7 = s6 + pre;
    lemma_count_calls_add(s6, pre, renamed);
    let s8 = s7 + gets;
    lemma_count_calls_add(s7, gets, renamed);
    let s9 = s8 + reified_get;
    lemma_count_calls_add(s8, reified_get, renamed);
    let s10 = s9 + c;
    lemma_count_calls_add(s9, c, renamed);
    let s11 = s10 + store;
    lemma_count_calls_add(s10, store, renamed);
    lemma_count_calls_add(s11, setters, renamed);
}

/// Whatever shape the wrapper takes (parameters or none, sync or async,
/// reified generics, implicit context), its body holds exactly one call to
/// the wrapped implementation, given that the pieces lowered elsewhere
/// (parameter binding and deprecation code) hold none.
pub proof fn lemma_wrapper_calls_implementation_once(
    pos: Pos,
    names: Seq<String>,
    binding: (Seq<Instr>, Seq<Instr>, Seq<Instr>),
    deprecation: Seq<Instr>,
    renamed: String,
    is_async: bool,
    is_reified: bool,
    implicit_context: bool,
    l0: int,
)
    requires
        count_calls(binding.0, renamed) == 0,
        count_calls(binding.1, renamed) == 0,
        count_calls(binding.2, renamed) == 0,
        count_calls(deprecation, renamed) == 0,
    ensures
        count_calls(
            memoize_code_spec(pos, names, binding, deprecation, renamed, is_async, is_reified, implicit_context, l0),
            renamed,
        ) == 1,
{
    lemma_no_calls_in_fixed_parts(
        renamed,
        is_async,
        is_reified,
        implicit_context,
        Label { id: 0 },
        Label { id: 0 },
        Label { id: 0 },
        None,
        pos,
        0,
        0,
    );
    let body = if names.len() == 0 && !is_reified && !implicit_context {
        lemma_no_params_calls_once(deprecation, renamed, is_async, l0);
        no_params_spec(deprecation, renamed, is_async, l0)
    } else {
        lemma_with_params_calls_once(names, binding, deprecation, renamed, is_async, is_reified, implicit_context, l0);
        with_params_spec(names, binding, deprecation, renamed, is_async, is_reified, implicit_context, l0)
    };
    lemma_count_calls_add(emit_pos_spec(pos), body, renamed);
}

/// Checks that the parameters can form a memo key: no inout parameter
/// (methods aside) and no variadic one.
pub open spec fn has_inout(params: Seq<FunParam>) -> bool {
    exists|i: int| 0 <= i < params.len() && #[trigger] params[i].is_inout
}

pub open spec fn has_variadic(params: Seq<FunParam>) -> bool {
    exists|i: int| 0 <= i < params.len() && #[trigger] params[i].is_variadic
}

/// The memoizability check fails at `pos` with a run-time fatal carrying
/// `message`.
pub open spec fn memoize_fatal(err: EmitError, pos: Pos, message: Seq<char>) -> bool {
    err matches EmitError::Fatal(op, p, m) && op == crate::instr::FatalOp::Runtime && p == pos && m@ == message
}

pub fn check_memoize_possible(pos: &Pos, params: &Vec<FunParam>, is_method: bool) -> (r: Result<(), EmitError>)
    ensures
        !is_method && has_inout(params@) ==> (r matches Err(err) && memoize_fatal(
            err,
            *pos,
            MEMOIZE_INOUT_MESSAGE@,
        )),
        !(!is_method && has_inout(params@)) && has_variadic(params@) ==> (r matches Err(err)
            && memoize_fatal(err, *pos, MEMOIZE_VARIADIC_MESSAGE@)),
        !(!is_method && has_inout(params@)) && !has_variadic(params@) ==> r is Ok,
{
    let mut inout = false;
    let mut variadic = false;
    let mut i: usize = 0;
    while i < params.len()
        invariant
            i <= params.len(),
            inout == exists|j: int| 0 <= j < i && #[trigger] params@[j].is_inout,
            variadic == exists|j: int| 0 <= j < i && #[trigger] params@[j].is_variadic,
        decreases params.len() - i,
    {
        inout = inout || params[i].is_inout;
        variadic = variadic || params[i].is_variadic;
        i = i + 1;
    }
    if !is_method && inout {
        return Err(raise_fatal_runtime(pos, MEMOIZE_INOUT_MESSAGE.to_owned()));
    }
    if variadic {
        return Err(raise_fatal_runtime(pos, MEMOIZE_VARIADIC_MESSAGE.to_owned()));
    }
    Ok(())
}

/// Some type parameter is reified, softly or fully.
pub open spec fn any_reified(tparams: Seq<Tparam>) -> bool {
    exists|i: int| 0 <= i < tparams.len() && !(#[trigger] tparams[i].reified is Erased)
}

fn is_any_reified(tparams: &Vec<Tparam>) -> (r: bool)
    ensures
        r == any_reified(tparams@),
{
    let mut i: usize = 0;
    while i < tparams.len()
        invariant
            i <= tparams.len(),
            forall|j: int| 0 <= j < i ==> #[trigger] tparams@[j].reified is Erased,
        decreases tparams.len() - i,
    {
        if !matches!(tparams[i].reified, ReifyKind::Erased) {
            return true;
        }
        i = i + 1;
    }
    false
}

fn param_names(params: &Vec<FunParam>) -> (r: Vec<String>)
    ensures
        r@.len() == params@.len(),
        forall|i: int| 0 <= i < params.len() ==> #[trigger] r@[i] == params@[i].name,
{
    let mut r: Vec<String> = Vec::new();
    let mut i: usize = 0;
    while i < params.len()
        invariant
            i <= params.len(),
            r@.len() == i,
            forall|j: int| 0 <= j < i ==> #[trigger] r@[j] == params@[j].name,
        decreases params.len() - i,
    {
        r.push(params[i].name.clone());
        i = i + 1;
    }
    r
}

fn wrapper_params(names: &Vec<String>) -> (r: Vec<Param>)
    ensures
        r@.len() == names@.len(),
        forall|i: int| 0 <= i < names.len() ==> (#[trigger] r@[i]).name == names@[i] && r@[i].type_constraint is None,
{
    let mut r: Vec<Param> = Vec::new();
    let mut i: usize = 0;
    while i < names.len()
        invariant
            i <= names.len(),
            r@.len() == i,
            forall|j: int| 0 <= j < i ==> (#[trigger] r@[j]).name == names@[j] && r@[j].type_constraint is None,
        decreases names.len() - i,
    {
        r.push(Param { name: names[i].clone(), type_constraint: None });
        i = i + 1;
    }
    r
}

/// The wrapper's body record: it declares the reified-generics local when
/// the function has reified generics.
pub fn make_wrapper_body(e: &Emitter, params: Vec<Param>, body_instrs: Vec<Instr>, is_reified: bool) -> (r: Body)
    ensures
        r.instrs == body_instrs,
        r.params == params,
        r.is_memoize_wrapper,
        r.num_iters == e.next_iterator,
        is_reified ==> r.decl_vars@.len() == 1 && r.decl_vars@[0]@ == GENERICS_LOCAL_NAME@,
        !is_reified ==> r.decl_vars@.len() == 0,
{
    let mut decl_vars: Vec<String> = Vec::new();
    if is_reified {
        decl_vars.push(GENERICS_LOCAL_NAME.to_owned());
    }
    Body { instrs: body_instrs, decl_vars, params, num_iters: e.next_iterator, is_memoize_wrapper: true }
}

/// The key counts the ambient implicit context: the feature is on and the
/// function carries a policy-sharded memoization attribute.
pub open spec fn implicit_context_spec(opts: Options, attrs: Seq<String>) -> bool {
    opts.enable_implicit_context && (has_name(attrs, POLICY_SHARDED_MEMOIZE@) || has_name(
        attrs,
        POLICY_SHARDED_MEMOIZE_LSB@,
    ))
}

/// The caching wrapper `original_id` around the renamed implementation
/// `renamed_id` of the memoized function `fd`. `deprecation_body` and
/// `binding` are the deprecation warning and parameter binding as lowered
/// elsewhere.
pub fn emit_wrapper_function(
    e: &mut Emitter,
    original_id: String,
    renamed_id: &String,
    deprecation_body: Vec<Instr>,
    binding: ParamBinding,
    fd: &FunDecl,
) -> (r: Result<FunctionRecord, EmitError>)
    requires
        old(e).next_label + 3 <= u64::MAX,
        3 * fd.params.len() + 3 <= u64::MAX,
    ensures
        has_inout(fd.params@) ==> (r matches Err(err) && memoize_fatal(
            err,
            fd.name_pos,
            MEMOIZE_INOUT_MESSAGE@,
        )),
        !has_inout(fd.params@) && has_variadic(fd.params@) ==> (r matches Err(err) && memoize_fatal(
            err,
            fd.name_pos,
            MEMOIZE_VARIADIC_MESSAGE@,
        )),
        r is Err ==> *final(e) == *old(e),
        !has_inout(fd.params@) && !has_variadic(fd.params@) ==> (r matches Ok(f) && {
            let names = fd.params@.map_values(|p: FunParam| p.name);
            let is_reified = any_reified(fd.tparams@);
            &&& f.name == original_id
            &&& f.attributes@ == fd.attributes@
            &&& f.body.instrs@ == memoize_code_spec(
                fd.span,
                names,
                binding_view(binding),
                deprecation_body@,
                *renamed_id,
                fd.is_async,
                is_reified,
                implicit_context_spec(old(e).options, fd.attributes@),
                old(e).next_label as int,
            )
            &&& f.body.is_memoize_wrapper
            &&& f.body.params@.map_values(|p: Param| p.name) == names
            &&& (is_reified ==> f.body.decl_vars@.len() == 1 && f.body.decl_vars@[0]@ == GENERICS_LOCAL_NAME@)
            &&& (!is_reified ==> f.body.decl_vars@.len() == 0)
            &&& f.span == Span { line_begin: fd.span.line_begin, line_end: fd.span.line_end }
            &&& f.coeffects == fd.coeffects
            &&& f.is_async == fd.is_async
            &&& f.attrs == fun_attrs_spec(
                old(e).systemlib,
                old(e).options,
                fd.readonly_ret,
                fd.attributes@,
                false,
            )
            &&& final(e).next_label == old(e).next_label + 3
        }),
{
    check_memoize_possible(&fd.name_pos, &fd.params, false)?;
    let names = param_names(&fd.params);
    assert(names@ =~= fd.params@.map_values(|p: FunParam| p.name));
    let is_reified = is_any_reified(&fd.tparams);
    let should_emit_implicit_context = e.options.enable_implicit_context && (contains_name(
        &fd.attributes,
        POLICY_SHARDED_MEMOIZE,
    ) || contains_name(&fd.attributes, POLICY_SHARDED_MEMOIZE_LSB));
    let body_instrs = make_memoize_function_code(
        e,
        &fd.span,
        deprecation_body,
        &names,
        binding,
        renamed_id,
        fd.is_async,
        is_reified,
        should_emit_implicit_context,
    );
    let params = wrapper_params(&names);
    assert(params@.map_values(|p: Param| p.name) =~= names@);
    let body = make_wrapper_body(e, params, body_instrs, is_reified);
    let attrs = get_attrs_for_fun(e, fd, &fd.attributes, false);
    let mut attributes: Vec<String> = Vec::new();
    let mut k: usize = 0;
    while k < fd.attributes.len()
        invariant
            k <= fd.attributes.len(),
            attributes@ == fd.attributes@.subrange(0, k as int),
        decreases fd.attributes.len() - k,
    {
        attributes.push(fd.attributes[k].clone());
        k = k + 1;
    }
    assert(attributes@ =~= fd.attributes@);
    Ok(FunctionRecord {
        attributes,
        name: original_id,
        body,
        span: Span::from_pos(&fd.span),
        coeffects: fd.coeffects,
        is_async: fd.is_async,
        attrs,
    })
}

} // verus!
