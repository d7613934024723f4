use vstd::prelude::*;

use crate::emitter::Emitter;
use crate::error::{unrecoverable, EmitError};
use crate::hint::{
    fields_view, hints_view, lemma_fields_view, lemma_hints_view, ids_view, Hint, HintModel, ShapeField,
    ShapeFieldModel,
};
use crate::instr::{Instr, Label};
use crate::string_utils::{eq_ignore_ascii_case, eq_ignore_ascii_case_spec, is_single_char};

verus! {

/// Whether a type hint needs a run-time generic witness.
#[derive(Debug, Clone, Copy, PartialEq, Eq)]
pub enum ReificationLevel {
    /// There is a reified generic.
    Definitely,
    /// No function or class generic is reified, but an inferred one may be.
    Maybe,
    Not,
    Unconstrained,
}

impl ReificationLevel {
    pub open spec fn spec_combine(v1: ReificationLevel, v2: ReificationLevel) -> ReificationLevel {
        if v1 is Definitely || v2 is Definitely {
            ReificationLevel::Definitely
        } else if v1 is Maybe || v2 is Maybe {
            ReificationLevel::Maybe
        } else {
            ReificationLevel::Not
        }
    }

    /// Joins two levels: `Definitely` absorbs everything, then `Maybe`.
    pub fn combine(v1: &Self, v2: &Self) -> (r: Self)
        ensures
            r == Self::spec_combine(*v1, *v2),
    {
        match (v1, v2) {
            (ReificationLevel::Definitely, _) | (_, ReificationLevel::Definitely) => {
                ReificationLevel::Definitely
            },
            (ReificationLevel::Maybe, _) | (_, ReificationLevel::Maybe) => ReificationLevel::Maybe,
            _ => ReificationLevel::Not,
        }
    }
}

/// The class names that every async return type may be wrapped in.
pub const AWAITABLE: &'static str = "\\HH\\Awaitable";

#[derive(Debug, Clone, Copy, PartialEq, Eq)]
pub enum ReifyKind {
    Erased,
    SoftReified,
    Reified,
}

/// A declared type parameter.
#[derive(Debug)]
pub struct Tparam {
    pub name: String,
    pub reified: ReifyKind,
}

/// The generic scope of the code being lowered.
#[derive(Debug)]
pub struct Scope {
    pub class_tparams: Vec<Tparam>,
    pub fun_tparams: Vec<Tparam>,
    /// The enclosing function is asynchronous.
    pub is_async: bool,
}

/// `tps` declares `n` as a reified (or soft-reified) parameter.
pub open spec fn reified_in(tps: Seq<Tparam>, n: Seq<char>) -> bool {
    exists|i: int| 0 <= i < tps.len() && #[trigger] tps[i].name@ == n && !(tps[i].reified is Erased)
}

/// `tps` declares `n` as a parameter that is not fully reified.
pub open spec fn erased_in(tps: Seq<Tparam>, n: Seq<char>) -> bool {
    exists|i: int| 0 <= i < tps.len() && #[trigger] tps[i].name@ == n && !(tps[i].reified is Reified)
}

impl Scope {
    /// All type parameters in scope: the class's, then the function's.
    pub open spec fn all_tparams(&self) -> Seq<Tparam> {
        self.class_tparams@ + self.fun_tparams@
    }

    pub open spec fn is_reified_tparam(&self, n: Seq<char>) -> bool {
        reified_in(self.fun_tparams@, n) || reified_in(self.class_tparams@, n)
    }

    pub open spec fn is_erased_tparam(&self, n: Seq<char>) -> bool {
        erased_in(self.all_tparams(), n)
    }
}

fn find_reified(tps: &Vec<Tparam>, n: &String) -> (r: bool)
    ensures
        r == reified_in(tps@, n@),
{
    let mut i: usize = 0;
    while i < tps.len()
        invariant
            i <= tps.len(),
            forall|j: int| 0 <= j < i ==> !(#[trigger] tps@[j].name@ == n@ && !(tps@[j].reified is Erased)),
        decreases tps.len() - i,
    {
        if tps[i].name == *n && !matches!(tps[i].reified, ReifyKind::Erased) {
            return true;
        }
        i = i + 1;
    }
    false
}

fn find_erased(tps: &Vec<Tparam>, n: &String) -> (r: bool)
    ensures
        r == erased_in(tps@, n@),
{
    let mut i: usize = 0;
    while i < tps.len()
        invariant
            i <= tps.len(),
            forall|j: int| 0 <= j < i ==> !(#[trigger] tps@[j].name@ == n@ && !(tps@[j].reified is Reified)),
        decreases tps.len() - i,
    {
        if tps[i].name == *n && !matches!(tps[i].reified, ReifyKind::Reified) {
            return true;
        }
        i = i + 1;
    }
    false
}

/// `n` is a reified type parameter of the function or of the class in scope.
pub fn is_reified_tparam(scope: &Scope, n: &String) -> (r: bool)
    ensures
        r == scope.is_reified_tparam(n@),
{
    find_reified(&scope.fun_tparams, n) || find_reified(&scope.class_tparams, n)
}

/// `n` is a type parameter in scope that is erased at run time.
pub fn is_erased_tparam(scope: &Scope, n: &String) -> (r: bool)
    ensures
        r == scope.is_erased_tparam(n@),
{
    let a = find_erased(&scope.class_tparams, n);
    let b = find_erased(&scope.fun_tparams, n);
    proof {
        let all = scope.all_tparams();
        let c = scope.class_tparams@;
        if a {
            let i = choose|i: int| 0 <= i < c.len() && #[trigger] c[i].name@ == n@ && !(c[i].reified is Reified);
            assert(all[i] == c[i]);
        }
        if b {
            let f = scope.fun_tparams@;
            let i = choose|i: int| 0 <= i < f.len() && #[trigger] f[i].name@ == n@ && !(f[i].reified is Reified);
            assert(all[c.len() + i] == f[i]);
        }
        if erased_in(all, n@) {
            let i = choose|i: int| 0 <= i < all.len() && #[trigger] all[i].name@ == n@ && !(all[i].reified is Reified);
            if i < c.len() {
                assert(c[i] == all[i]);
            } else {
                assert(scope.fun_tparams@[i - c.len()] == all[i]);
            }
        }
    }
    a || b
}

/// The names of the type parameters in scope that are erased, in order.
pub open spec fn erased_names(tps: Seq<Tparam>) -> Seq<Seq<char>>
    decreases tps.len(),
{
    if tps.len() == 0 {
        Seq::empty()
    } else if tps.last().reified is Reified {
        erased_names(tps.drop_last())
    } else {
        erased_names(tps.drop_last()).push(tps.last().name@)
    }
}

fn push_erased_names(out: &mut Vec<String>, tps: &Vec<Tparam>, Ghost(before): Ghost<Seq<Tparam>>)
    requires
        old(out)@.map_values(|s: String| s@) == erased_names(before),
    ensures
        final(out)@.map_values(|s: String| s@) == erased_names(before + tps@),
{
    let mut i: usize = 0;
    assert(before + tps@.subrange(0, 0) =~= before);
    while i < tps.len()
        invariant
            i <= tps.len(),
            out@.map_values(|s: String| s@) == erased_names(before + tps@.subrange(0, i as int)),
        decreases tps.len() - i,
    {
        let ghost prev = out@;
        assert((before + tps@.subrange(0, i + 1)).drop_last() =~= before + tps@.subrange(0, i as int));
        if !matches!(tps[i].reified, ReifyKind::Reified) {
            out.push(tps[i].name.clone());
            assert(out@.map_values(|s: String| s@) =~= prev.map_values(|s: String| s@).push(tps@[i as int].name@));
        }
        i = i + 1;
    }
    assert(tps@.subrange(0, tps.len() as int) =~= tps@);
}

/// The names of the type parameters in scope that are not fully reified.
pub fn get_erased_tparams(scope: &Scope) -> (r: Vec<String>)
    ensures
        r@.map_values(|s: String| s@) == erased_names(scope.all_tparams()),
{
    let mut out: Vec<String> = Vec::new();
    assert(out@.map_values(|s: String| s@) =~= erased_names(Seq::<Tparam>::empty()));
    push_erased_names(&mut out, &scope.class_tparams, Ghost(Seq::empty()));
    assert(Seq::<Tparam>::empty() + scope.class_tparams@ =~= scope.class_tparams@);
    push_erased_names(&mut out, &scope.fun_tparams, Ghost(scope.class_tparams@));
    out
}

/// A bare name that stands for an erased type: the wildcard `_` or an erased parameter.
pub open spec fn is_erased_leaf(scope: Scope, h: HintModel) -> bool {
    h matches HintModel::Apply(n, args) && args.len() == 0 && (n == seq!['_'] || scope.is_erased_tparam(n))
}

/// How `h` classifies, or `None` where it holds a node that cannot reach this stage.
pub open spec fn reification(scope: Scope, h: HintModel) -> Option<ReificationLevel>
    decreases h,
{
    match h {
        HintModel::Apply(n, args) => {
            if scope.is_reified_tparam(n) {
                Some(ReificationLevel::Definitely)
            } else if forall|i: int| 0 <= i < args.len() ==> #[trigger] is_erased_leaf(scope, args[i]) {
                Some(ReificationLevel::Not)
            } else {
                fold_reification(scope, args)
            }
        },
        HintModel::Option(i) => reification(scope, *i),
        HintModel::Soft(i) => reification(scope, *i),
        HintModel::Like(i) => reification(scope, *i),
        HintModel::Error => None,
        HintModel::Any => None,
        HintModel::Abstr => None,
        _ => Some(ReificationLevel::Not),
    }
}

/// The classifications of `hs` joined from the right, starting from `Maybe`.
pub open spec fn fold_reification(scope: Scope, hs: Seq<HintModel>) -> Option<ReificationLevel>
    decreases hs,
{
    if hs.len() == 0 {
        Some(ReificationLevel::Maybe)
    } else {
        match (fold_reification(scope, hs.drop_first()), reification(scope, hs[0])) {
            (Some(acc), Some(l)) => Some(ReificationLevel::spec_combine(acc, l)),
            _ => None,
        }
    }
}

proof fn lemma_fold_none(scope: Scope, hs: Seq<HintModel>, i: int)
    requires
        0 <= i < hs.len(),
        reification(scope, hs[i]) is None,
    ensures
        fold_reification(scope, hs) is None,
    decreases hs.len(),
{
    if i > 0 {
        assert(hs.drop_first()[i - 1] == hs[i]);
        lemma_fold_none(scope, hs.drop_first(), i - 1);
    }
}

fn is_erased_leaf_exec(scope: &Scope, h: &Hint) -> (r: bool)
    ensures
        r == is_erased_leaf(*scope, h@),
{
    match h {
        Hint::Apply(id, args) => {
            assert(h@ == HintModel::Apply(id@, hints_view(args)));
            args.len() == 0 && (is_single_char(id.as_str(), '_') || is_erased_tparam(scope, id))
        },
        _ => false,
    }
}

fn is_all_erased(scope: &Scope, hs: &Vec<Hint>) -> (r: bool)
    ensures
        r == forall|i: int| 0 <= i < hs.len() ==> #[trigger] is_erased_leaf(*scope, hints_view(hs)[i]),
{
    let mut i: usize = 0;
    while i < hs.len()
        invariant
            i <= hs.len(),
            forall|j: int| 0 <= j < i ==> #[trigger] is_erased_leaf(*scope, hints_view(hs)[j]),
        decreases hs.len() - i,
    {
        if !is_erased_leaf_exec(scope, &hs[i]) {
            assert(!is_erased_leaf(*scope, hints_view(hs)[i as int]));
            return false;
        }
        i = i + 1;
    }
    true
}

/// Classifies `h` by whether it needs a run-time generic witness.
/// Error markers and abstract types are internal errors.
#[verifier::loop_isolation(false)]
pub fn has_reified_type_constraint(scope: &Scope, h: &Hint) -> (r: Result<ReificationLevel, EmitError>)
    ensures
        match reification(*scope, h@) {
            Some(l) => r == Ok::<ReificationLevel, EmitError>(l),
            None => r matches Err(e) && e is Unrecoverable,
        },
    decreases h,
{
    match h {
        Hint::Apply(id, hs) => {
            assert(h@ == HintModel::Apply(id@, hints_view(hs)));
            if is_reified_tparam(scope, id) {
                return Ok(ReificationLevel::Definitely);
            }
            if is_all_erased(scope, hs) {
                return Ok(ReificationLevel::Not);
            }
            let ghost m = hints_view(hs);
            let mut acc = ReificationLevel::Maybe;
            let mut i: usize = hs.len();
            assert(m.subrange(hs.len() as int, hs.len() as int) =~= Seq::<HintModel>::empty());
            while i > 0
                invariant
                    i <= hs.len(),
                    m == hints_view(hs),
                    fold_reification(*scope, m.subrange(i as int, hs.len() as int)) == Some(acc),
                decreases i,
            {
                i = i - 1;
                let ghost sub = m.subrange(i as int, hs.len() as int);
                assert(sub.drop_first() =~= m.subrange(i + 1, hs.len() as int));
                assert(sub[0] == hs@[i as int]@);
                proof {
                    assert(decreases_to!(*hs => hs@[i as int]));
                }
                match has_reified_type_constraint(scope, &hs[i]) {
                    Ok(l) => {
                        acc = ReificationLevel::combine(&acc, &l);
                    },
                    Err(e) => {
                        proof {
                            lemma_fold_none(*scope, m, i as int);
                        }
                        return Err(e);
                    },
                }
            }
            assert(m.subrange(0, hs.len() as int) =~= m);
            Ok(acc)
        },
        Hint::Option(i) => has_reified_type_constraint(scope, i),
        Hint::Soft(i) => has_reified_type_constraint(scope, i),
        Hint::Like(i) => has_reified_type_constraint(scope, i),
        Hint::Error | Hint::Any => Err(unrecoverable("Should be a naming error")),
        Hint::Abstr => Err(unrecoverable("Abstract types do not reach this stage")),
        _ => Ok(ReificationLevel::Not),
    }
}

/// `h` with an outer awaitable wrapper removed: `Awaitable<T>` becomes `T`,
/// soft and like wrappers move inward, and an outer nullable is dropped.
pub open spec fn strip_awaitable(h: HintModel) -> HintModel
    decreases h,
{
    match h {
        HintModel::Apply(n, args) => {
            if args.len() == 1 && eq_ignore_ascii_case_spec(n, AWAITABLE@) {
                args[0]
            } else {
                HintModel::Apply(n, args)
            }
        },
        HintModel::Soft(i) => HintModel::Soft(Box::new(strip_awaitable(*i))),
        HintModel::Like(i) => HintModel::Like(Box::new(strip_awaitable(*i))),
        HintModel::Option(i) => strip_awaitable(*i),
        _ => h,
    }
}

pub fn remove_awaitable(h: Hint) -> (r: Hint)
    ensures
        r@ == strip_awaitable(h@),
    decreases h,
{
    let ghost hv = h@;
    match h {
        Hint::Apply(sid, hs) => {
            assert(hv == HintModel::Apply(sid@, hints_view(&hs)));
            if hs.len() == 1 && eq_ignore_ascii_case(sid.as_str(), AWAITABLE) {
                let mut hs = hs;
                let ghost m = hints_view(&hs);
                assert(m[0] == hs@[0]@);
                let inner = hs.pop();
                inner.unwrap()
            } else {
                Hint::Apply(sid, hs)
            }
        },
        Hint::Soft(i) => Hint::Soft(Box::new(remove_awaitable(*i))),
        Hint::Like(i) => Hint::Like(Box::new(remove_awaitable(*i))),
        Hint::Option(i) => remove_awaitable(*i),
        other => other,
    }
}

/// The result type as the caller sees it: unwrapped in an async scope,
/// unchanged otherwise.
pub open spec fn convert_awaitable_spec(is_async: bool, h: HintModel) -> HintModel {
    if is_async {
        strip_awaitable(h)
    } else {
        h
    }
}

pub fn convert_awaitable(scope: &Scope, h: Hint) -> (r: Hint)
    ensures
        r@ == convert_awaitable_spec(scope.is_async, h@),
{
    if scope.is_async {
        remove_awaitable(h)
    } else {
        h
    }
}

/// `h` holds no node that erasure cannot handle: every node that erasure
/// walks through is an applied, wrapped, tuple, union, intersection or shape
/// hint, and function types and type-constant accesses stop the walk.
pub open spec fn erasable(h: HintModel) -> bool
    decreases h,
{
    match h {
        HintModel::Apply(_, args) => erasable_all(args),
        HintModel::Option(i) => erasable(*i),
        HintModel::Soft(i) => erasable(*i),
        HintModel::Like(i) => erasable(*i),
        HintModel::Tuple(hs) => erasable_all(hs),
        HintModel::Union(hs) => erasable_all(hs),
        HintModel::Intersection(hs) => erasable_all(hs),
        HintModel::Shape(_, fs) => forall|i: int| 0 <= i < fs.len() ==> erasable(#[trigger] fs[i].hint),
        HintModel::Fun(_, _) => true,
        HintModel::Access(_, _) => true,
        _ => false,
    }
}

pub open spec fn erasable_all(hs: Seq<HintModel>) -> bool
    decreases hs,
{
    forall|i: int| 0 <= i < hs.len() ==> erasable(#[trigger] hs[i])
}

/// The name after erasure: an erased type parameter becomes the wildcard.
pub open spec fn erased_name(scope: Scope, n: Seq<char>) -> Seq<char> {
    if scope.is_erased_tparam(n) {
        seq!['_']
    } else {
        n
    }
}

/// `h` with every applied name that is an erased type parameter replaced by
/// the wildcard; function types and type-constant accesses are kept whole.
pub open spec fn erase(scope: Scope, h: HintModel) -> HintModel
    decreases h,
{
    match h {
        HintModel::Apply(n, args) => HintModel::Apply(erased_name(scope, n), erase_all(scope, args)),
        HintModel::Option(i) => HintModel::Option(Box::new(erase(scope, *i))),
        HintModel::Soft(i) => HintModel::Soft(Box::new(erase(scope, *i))),
        HintModel::Like(i) => HintModel::Like(Box::new(erase(scope, *i))),
        HintModel::Tuple(hs) => HintModel::Tuple(erase_all(scope, hs)),
        HintModel::Union(hs) => HintModel::Union(erase_all(scope, hs)),
        HintModel::Intersection(hs) => HintModel::Intersection(erase_all(scope, hs)),
        HintModel::Shape(u, fs) => HintModel::Shape(u, erase_fields_all(scope, fs)),
        _ => h,
    }
}

pub open spec fn erase_fields_all(scope: Scope, fs: Seq<ShapeFieldModel>) -> Seq<ShapeFieldModel>
    decreases fs,
{
    Seq::new(
        fs.len(),
        |i: int|
            if 0 <= i < fs.len() {
                ShapeFieldModel { optional: fs[i].optional, name: fs[i].name, hint: erase(scope, fs[i].hint) }
            } else {
                ShapeFieldModel { optional: false, name: Seq::empty(), hint: HintModel::Prim }
            },
    )
}

pub open spec fn erase_all(scope: Scope, hs: Seq<HintModel>) -> Seq<HintModel>
    decreases hs,
{
    Seq::new(hs.len(), |i: int| if 0 <= i < hs.len() { erase(scope, hs[i]) } else { HintModel::Prim })
}

fn erase_name(scope: &Scope, id: String) -> (r: String)
    ensures
        r@ == erased_name(*scope, id@),
{
    if is_erased_tparam(scope, &id) {
        let w = "_";
        proof {
            reveal_strlit("_");
        }
        assert(w@ =~= seq!['_']);
        w.to_owned()
    } else {
        id
    }
}

fn erase_hints(scope: &Scope, hs: &Vec<Hint>) -> (r: Result<Vec<Hint>, EmitError>)
    ensures
        erasable_all(hints_view(hs)) ==> (r matches Ok(v) && hints_view(&v) == erase_all(*scope, hints_view(hs))),
        !erasable_all(hints_view(hs)) ==> (r matches Err(e) && e is Unrecoverable),
    decreases hs, 0int,
{
    let ghost orig = hints_view(hs);
    let mut out: Vec<Hint> = Vec::new();
    let mut k: usize = 0;
    while k < hs.len()
        invariant
            k <= hs.len(),
            orig == hints_view(hs),
            out@.len() == k,
            forall|j: int| 0 <= j < k ==> #[trigger] out@[j]@ == erase(*scope, orig[j]),
            forall|j: int| 0 <= j < k ==> erasable(#[trigger] orig[j]),
        decreases hs.len() - k,
    {
        assert(orig[k as int] == hs@[k as int]@);
        proof {
            assert(decreases_to!(*hs => hs@[k as int]));
        }
        match erase_hint(scope, &hs[k]) {
            Ok(e) => {
                out.push(e);
            },
            Err(e) => {
                return Err(e);
            },
        }
        k = k + 1;
    }
    proof {
        lemma_hints_view(&out);
        lemma_hints_view(hs);
    }
    assert(hints_view(&out) =~= erase_all(*scope, orig));
    Ok(out)
}

fn erase_fields(scope: &Scope, fs: &Vec<ShapeField>) -> (r: Result<Vec<ShapeField>, EmitError>)
    ensures
        (forall|i: int| 0 <= i < fs.len() ==> erasable(#[trigger] fs@[i].hint@)) ==> (r matches Ok(v)
            && v.len() == fs.len()
            && forall|i: int| 0 <= i < fs.len() ==> {
                &&& (#[trigger] v@[i]).optional == fs@[i].optional
                &&& v@[i].name@ == fs@[i].name@
                &&& v@[i].hint@ == erase(*scope, fs@[i].hint@)
            }),
        !(forall|i: int| 0 <= i < fs.len() ==> erasable(#[trigger] fs@[i].hint@)) ==> (r matches Err(e)
            && e is Unrecoverable),
    decreases fs, 0int,
{
    let mut out: Vec<ShapeField> = Vec::new();
    let mut k: usize = 0;
    while k < fs.len()
        invariant
            k <= fs.len(),
            out@.len() == k,
            forall|j: int| 0 <= j < k ==> {
                &&& (#[trigger] out@[j]).optional == fs@[j].optional
                &&& out@[j].name@ == fs@[j].name@
                &&& out@[j].hint@ == erase(*scope, fs@[j].hint@)
            },
            forall|j: int| 0 <= j < k ==> erasable(#[trigger] fs@[j].hint@),
        decreases fs.len() - k,
    {
        proof {
            assert(decreases_to!(*fs => fs@[k as int]));
        }
        match erase_hint(scope, &fs[k].hint) {
            Ok(e) => {
                out.push(ShapeField { optional: fs[k].optional, name: fs[k].name.clone(), hint: e });
            },
            Err(e) => {
                return Err(e);
            },
        }
        k = k + 1;
    }
    Ok(out)
}

/// A copy of a list of hints.
pub fn copy_hints(hs: &Vec<Hint>) -> (r: Vec<Hint>)
    ensures
        hints_view(&r) == hints_view(hs),
    decreases hs, 0int,
{
    let mut out: Vec<Hint> = Vec::new();
    let mut k: usize = 0;
    while k < hs.len()
        invariant
            k <= hs.len(),
            out@.len() == k,
            forall|j: int| 0 <= j < k ==> #[trigger] out@[j]@ == hs@[j]@,
        decreases hs.len() - k,
    {
        proof {
            assert(decreases_to!(*hs => hs@[k as int]));
        }
        out.push(copy_hint(&hs[k]));
        k = k + 1;
    }
    proof {
        lemma_hints_view(&out);
        lemma_hints_view(hs);
    }
    assert(hints_view(&out) =~= hints_view(hs));
    out
}

fn copy_fields(fs: &Vec<ShapeField>) -> (r: Vec<ShapeField>)
    ensures
        r.len() == fs.len(),
        forall|i: int| 0 <= i < fs.len() ==> {
            &&& (#[trigger] r@[i]).optional == fs@[i].optional
            &&& r@[i].name@ == fs@[i].name@
            &&& r@[i].hint@ == fs@[i].hint@
        },
    decreases fs, 0int,
{
    let mut out: Vec<ShapeField> = Vec::new();
    let mut k: usize = 0;
    while k < fs.len()
        invariant
            k <= fs.len(),
            out@.len() == k,
            forall|j: int| 0 <= j < k ==> {
                &&& (#[trigger] out@[j]).optional == fs@[j].optional
                &&& out@[j].name@ == fs@[j].name@
                &&& out@[j].hint@ == fs@[j].hint@
            },
        decreases fs.len() - k,
    {
        proof {
            assert(decreases_to!(*fs => fs@[k as int]));
        }
        out.push(ShapeField { optional: fs[k].optional, name: fs[k].name.clone(), hint: copy_hint(&fs[k].hint) });
        k = k + 1;
    }
    out
}

fn copy_names(ids: &Vec<String>) -> (r: Vec<String>)
    ensures
        r@.len() == ids@.len(),
        forall|i: int| 0 <= i < ids.len() ==> #[trigger] r@[i]@ == ids@[i]@,
{
    let mut out: Vec<String> = Vec::new();
    let mut k: usize = 0;
    while k < ids.len()
        invariant
            k <= ids.len(),
            out@.len() == k,
            forall|j: int| 0 <= j < k ==> #[trigger] out@[j]@ == ids@[j]@,
        decreases ids.len() - k,
    {
        out.push(ids[k].clone());
        k = k + 1;
    }
    out
}

/// A copy of a hint.
#[verifier::loop_isolation(false)]
pub fn copy_hint(h: &Hint) -> (r: Hint)
    ensures
        r@ == h@,
    decreases h, 1int,
{
    match h {
        Hint::Apply(id, hs) => Hint::Apply(id.clone(), copy_hints(hs)),
        Hint::Option(i) => Hint::Option(Box::new(copy_hint(i))),
        Hint::Soft(i) => Hint::Soft(Box::new(copy_hint(i))),
        Hint::Like(i) => Hint::Like(Box::new(copy_hint(i))),
        Hint::Tuple(hs) => Hint::Tuple(copy_hints(hs)),
        Hint::Union(hs) => Hint::Union(copy_hints(hs)),
        Hint::Intersection(hs) => Hint::Intersection(copy_hints(hs)),
        Hint::Shape(u, fs) => {
            let c = copy_fields(fs);
            proof {
                lemma_fields_view(fs);
                lemma_fields_view(&c);
            }
            assert(fields_view(&c) =~= fields_view(fs));
            Hint::Shape(*u, c)
        },
        Hint::Fun(ps, ret) => Hint::Fun(copy_hints(ps), Box::new(copy_hint(ret))),
        Hint::Access(root, ids) => {
            let c = copy_names(ids);
            assert(ids_view(&c) =~= ids_view(ids));
            Hint::Access(Box::new(copy_hint(root)), c)
        },
        Hint::FunContext(n) => Hint::FunContext(n.clone()),
        Hint::Var(n) => Hint::Var(n.clone()),
        Hint::Prim => Hint::Prim,
        Hint::Mixed => Hint::Mixed,
        Hint::Nonnull => Hint::Nonnull,
        Hint::VecOrDict => Hint::VecOrDict,
        Hint::This => Hint::This,
        Hint::Nothing => Hint::Nothing,
        Hint::Dynamic => Hint::Dynamic,
        Hint::Error => Hint::Error,
        Hint::Any => Hint::Any,
        Hint::Abstr => Hint::Abstr,
    }
}

#[verifier::loop_isolation(false)]
fn erase_hint(scope: &Scope, h: &Hint) -> (r: Result<Hint, EmitError>)
    ensures
        erasable(h@) ==> (r matches Ok(v) && v@ == erase(*scope, h@)),
        !erasable(h@) ==> (r matches Err(e) && e is Unrecoverable),
    decreases h, 1int,
{
    match h {
        Hint::Apply(id, hs) => {
            let name = erase_name(scope, id.clone());
            let args = erase_hints(scope, hs)?;
            Ok(Hint::Apply(name, args))
        },
        Hint::Option(i) => Ok(Hint::Option(Box::new(erase_hint(scope, i)?))),
        Hint::Soft(i) => Ok(Hint::Soft(Box::new(erase_hint(scope, i)?))),
        Hint::Like(i) => Ok(Hint::Like(Box::new(erase_hint(scope, i)?))),
        Hint::Tuple(hs) => Ok(Hint::Tuple(erase_hints(scope, hs)?)),
        Hint::Union(hs) => Ok(Hint::Union(erase_hints(scope, hs)?)),
        Hint::Intersection(hs) => Ok(Hint::Intersection(erase_hints(scope, hs)?)),
        Hint::Shape(u, fs) => {
            proof {
                lemma_fields_view(fs);
                let m = fields_view(fs);
                assert(h@ == HintModel::Shape(*u, m));
                if erasable(h@) {
                    assert forall|i: int| 0 <= i < fs.len() implies erasable(#[trigger] fs@[i].hint@) by {
                        assert(erasable(m[i].hint));
                    }
                } else {
                    let i = choose|i: int| 0 <= i < m.len() && !erasable(#[trigger] m[i].hint);
                    assert(!erasable(fs@[i].hint@));
                }
            }
            let fields = erase_fields(scope, fs)?;
            proof {
                lemma_fields_view(&fields);
            }
            assert(fields_view(&fields) =~= erase_fields_all(*scope, fields_view(fs)));
            Ok(Hint::Shape(*u, fields))
        },
        Hint::Fun(_, _) | Hint::Access(_, _) => Ok(copy_hint(h)),
        Hint::FunContext(_) | Hint::Var(_) => Err(unrecoverable("Coeffects are erased during compilation")),
        _ => Err(unrecoverable("Hint kind does not reach this stage")),
    }
}

/// Rewrites the erased type parameters of `h` to the wildcard; hints that
/// erasure cannot walk through are internal errors.
pub fn remove_erased_generics(scope: &Scope, h: Hint) -> (r: Result<Hint, EmitError>)
    ensures
        erasable(h@) ==> (r matches Ok(v) && v@ == erase(*scope, h@)),
        !erasable(h@) ==> (r matches Err(e) && e is Unrecoverable),
{
    erase_hint(scope, &h)
}

/// The hint whose witness a run-time check needs: the inner hint of a
/// nullable, the hint itself otherwise.
pub fn verify_type_target(hint: &Hint) -> (r: &Hint)
    ensures
        hint@ matches HintModel::Option(i) ==> r@ == *i,
        !(hint@ is Option) ==> r == hint,
{
    match hint {
        Hint::Option(i) => i,
        _ => hint,
    }
}

/// The run-time check of a value against `hint`. For a nullable hint:
/// `check`, a jump past the rest when it succeeds, the witness `ts` of the
/// inner hint, `verify`, and the label. Otherwise `ts` then `verify`.
pub open spec fn verify_type_spec(
    nullable: bool,
    done: Label,
    check: Seq<Instr>,
    ts: Seq<Instr>,
    verify: Seq<Instr>,
) -> Seq<Instr> {
    if nullable {
        check + seq![Instr::JmpNZ(done)] + ts + verify + seq![Instr::Label(done)]
    } else {
        ts + verify
    }
}

/// Builds the run-time check of a value against `hint`; `ts` is the lowered
/// witness of `verify_type_target(hint)`.
pub fn simplify_verify_type(
    e: &mut Emitter,
    check: Vec<Instr>,
    hint: &Hint,
    ts: Vec<Instr>,
    verify_instr: Vec<Instr>,
) -> (r: Vec<Instr>)
    requires
        old(e).next_label < u64::MAX,
    ensures
        r@ == verify_type_spec(hint@ is Option, Label { id: old(e).next_label }, check@, ts@, verify_instr@),
        final(e).next_label == old(e).next_label + (if hint@ is Option { 1int } else { 0int }),
        final(e).next_iterator == old(e).next_iterator,
        final(e).systemlib == old(e).systemlib,
        final(e).options == old(e).options,
        final(e).symbol_refs == old(e).symbol_refs,
{
    let mut ts = ts;
    let mut verify_instr = verify_instr;
    if let Hint::Option(_) = hint {
        let done_label = e.next_regular();
        let mut r = check;
        r.push(Instr::JmpNZ(done_label));
        r.append(&mut ts);
        r.append(&mut verify_instr);
        r.push(Instr::Label(done_label));
        r
    } else {
        let mut r = ts;
        r.append(&mut verify_instr);
        r
    }
}

/// `hint` applies a class none of whose type parameters is reified; a
/// class that the lookup could not find is taken to have none.
pub open spec fn decl_has_no_reified_generics(hint: HintModel, decl: Option<Seq<ReifyKind>>) -> bool {
    &&& hint is Apply
    &&& (decl matches Some(tps) ==> forall|i: int| 0 <= i < tps.len() ==> #[trigger] tps[i] is Erased)
}

/// Given the result of looking up the class that `hint` applies (the reify
/// kinds of its type parameters, or `None` where the lookup failed), tells
/// whether that class has no reified generics.
pub fn happly_decl_has_no_reified_generics(hint: &Hint, decl: Option<&Vec<ReifyKind>>) -> (r: bool)
    ensures
        r == decl_has_no_reified_generics(
            hint@,
            match decl {
                Some(v) => Some(v@),
                None => None,
            },
        ),
{
    match hint {
        Hint::Apply(_, _) => match decl {
            Some(tps) => {
                let mut i: usize = 0;
                while i < tps.len()
                    invariant
                        i <= tps.len(),
                        hint@ is Apply,
                        decl == Some(tps),
                        forall|j: int| 0 <= j < i ==> #[trigger] tps@[j] is Erased,
                    decreases tps.len() - i,
                {
                    if !matches!(tps[i], ReifyKind::Erased) {
                        return false;
                    }
                    i = i + 1;
                }
                true
            },
            None => true,
        },
        _ => false,
    }
}

/// Joining levels: `Definitely` absorbs every level, `Maybe` absorbs `Not`,
/// `Not` joined with itself stays `Not`, the join is commutative on the
/// levels that joins produce, and it never produces `Unconstrained`.
pub proof fn lemma_combine_lattice(x: ReificationLevel, y: ReificationLevel)
    ensures
        ReificationLevel::spec_combine(ReificationLevel::Definitely, x) == ReificationLevel::Definitely,
        ReificationLevel::spec_combine(x, ReificationLevel::Definitely) == ReificationLevel::Definitely,
        ReificationLevel::spec_combine(ReificationLevel::Maybe, ReificationLevel::Not) == ReificationLevel::Maybe,
        ReificationLevel::spec_combine(ReificationLevel::Not, ReificationLevel::Not) == ReificationLevel::Not,
        !(x is Unconstrained) && !(y is Unconstrained) ==> ReificationLevel::spec_combine(x, y)
            == ReificationLevel::spec_combine(y, x),
        !(ReificationLevel::spec_combine(x, y) is Unconstrained),
{
}

/// Erasing twice gives what erasing once gives, and a hint that erasure can
/// walk stays walkable after it.
pub proof fn lemma_erase_idempotent(scope: Scope, h: HintModel)
    ensures
        erase(scope, erase(scope, h)) == erase(scope, h),
        erasable(h) ==> erasable(erase(scope, h)),
    decreases h,
{
    match h {
        HintModel::Apply(n, args) => {
            lemma_erase_all_idempotent(scope, args);
        },
        HintModel::Option(i) => {
            lemma_erase_idempotent(scope, *i);
        },
        HintModel::Soft(i) => {
            lemma_erase_idempotent(scope, *i);
        },
        HintModel::Like(i) => {
            lemma_erase_idempotent(scope, *i);
        },
        HintModel::Tuple(hs) => {
            lemma_erase_all_idempotent(scope, hs);
        },
        HintModel::Union(hs) => {
            lemma_erase_all_idempotent(scope, hs);
        },
        HintModel::Intersection(hs) => {
            lemma_erase_all_idempotent(scope, hs);
        },
        HintModel::Shape(u, fs) => {
            let once = erase_fields_all(scope, fs);
            assert forall|i: int| 0 <= i < fs.len() implies erase(scope, #[trigger] once[i].hint) == once[i].hint
                && (erasable(fs[i].hint) ==> erasable(once[i].hint)) by {
                lemma_erase_idempotent(scope, fs[i].hint);
            }
            assert(erase_fields_all(scope, once) =~= once);
        },
        _ => {},
    }
}

proof fn lemma_erase_all_idempotent(scope: Scope, hs: Seq<HintModel>)
    ensures
        erase_all(scope, erase_all(scope, hs)) == erase_all(scope, hs),
        erasable_all(hs) ==> erasable_all(erase_all(scope, hs)),
    decreases hs,
{
    let once = erase_all(scope, hs);
    assert forall|i: int| 0 <= i < hs.len() implies erase(scope, #[trigger] once[i]) == once[i] && (erasable(
        hs[i],
    ) ==> erasable(once[i])) by {
        lemma_erase_idempotent(scope, hs[i]);
    }
    assert(erase_all(scope, once) =~= once);
}

/// In an async scope `Awaitable<T>` (in any ASCII case) becomes `T`; outside
/// one every hint is kept as it is.
pub proof fn lemma_awaitable_round_trip(n: Seq<char>, t: HintModel, h: HintModel)
    requires
        eq_ignore_ascii_case_spec(n, AWAITABLE@),
    ensures
        convert_awaitable_spec(true, HintModel::Apply(n, seq![t])) == t,
        convert_awaitable_spec(false, h) == h,
{
}

} // verus!
