use vstd::prelude::*;

verus! {

/// A named field of a shape hint.
#[derive(Debug, PartialEq, Eq)]
pub struct ShapeField {
    pub optional: bool,
    pub name: String,
    pub hint: Hint,
}

/// A type hint, as it stands in the name-resolved syntax tree.
#[derive(Debug, PartialEq, Eq)]
pub enum Hint {
    /// A named type applied to type arguments (`C<T1, T2>`, or `C` alone).
    Apply(String, Vec<Hint>),
    /// Nullable: `?T`.
    Option(Box<Hint>),
    /// Soft: `@T`.
    Soft(Box<Hint>),
    /// Like-type: `~T`.
    Like(Box<Hint>),
    Tuple(Vec<Hint>),
    Union(Vec<Hint>),
    Intersection(Vec<Hint>),
    /// A shape: whether unknown fields are allowed, and its fields.
    Shape(bool, Vec<ShapeField>),
    /// A function type: parameter hints and return hint.
    Fun(Vec<Hint>, Box<Hint>),
    /// A type-constant access `T::C1::C2`.
    Access(Box<Hint>, Vec<String>),
    /// A capability (context) hint.
    FunContext(String),
    /// A context variable.
    Var(String),
    Prim,
    Mixed,
    Nonnull,
    VecOrDict,
    This,
    Nothing,
    Dynamic,
    /// Marks an error found earlier; never reaches this stage.
    Error,
    /// The unknown type of an error recovery; never reaches this stage.
    Any,
    /// An abstract type of the checker; never reaches this stage.
    Abstr,
}

pub struct ShapeFieldModel {
    pub optional: bool,
    pub name: Seq<char>,
    pub hint: HintModel,
}

/// The mathematical value of a `Hint`.
pub enum HintModel {
    Apply(Seq<char>, Seq<HintModel>),
    Option(Box<HintModel>),
    Soft(Box<HintModel>),
    Like(Box<HintModel>),
    Tuple(Seq<HintModel>),
    Union(Seq<HintModel>),
    Intersection(Seq<HintModel>),
    Shape(bool, Seq<ShapeFieldModel>),
    Fun(Seq<HintModel>, Box<HintModel>),
    Access(Box<HintModel>, Seq<Seq<char>>),
    FunContext(Seq<char>),
    Var(Seq<char>),
    Prim,
    Mixed,
    Nonnull,
    VecOrDict,
    This,
    Nothing,
    Dynamic,
    Error,
    Any,
    Abstr,
}

pub open spec fn hints_view(hs: &Vec<Hint>) -> Seq<HintModel>
    decreases hs,
{
    Seq::new(hs.len() as nat, |i: int| if 0 <= i < hs.len() { hint_view(&hs[i]) } else { HintModel::Prim })
}

pub open spec fn fields_view(fs: &Vec<ShapeField>) -> Seq<ShapeFieldModel>
    decreases fs,
{
    Seq::new(
        fs.len() as nat,
        |i: int|
            if 0 <= i < fs.len() {
                ShapeFieldModel { optional: fs[i].optional, name: fs[i].name@, hint: hint_view(&fs[i].hint) }
            } else {
                ShapeFieldModel { optional: false, name: Seq::empty(), hint: HintModel::Prim }
            },
    )
}

pub open spec fn ids_view(ids: &Vec<String>) -> Seq<Seq<char>> {
    Seq::new(ids.len() as nat, |i: int| ids@[i]@)
}

pub open spec fn hint_view(h: &Hint) -> HintModel
    decreases h,
{
    match h {
        Hint::Apply(n, args) => HintModel::Apply(n@, hints_view(args)),
        Hint::Option(i) => HintModel::Option(Box::new(hint_view(i))),
        Hint::Soft(i) => HintModel::Soft(Box::new(hint_view(i))),
        Hint::Like(i) => HintModel::Like(Box::new(hint_view(i))),
        Hint::Tuple(hs) => HintModel::Tuple(hints_view(hs)),
        Hint::Union(hs) => HintModel::Union(hints_view(hs)),
        Hint::Intersection(hs) => HintModel::Intersection(hints_view(hs)),
        Hint::Shape(u, fs) => HintModel::Shape(*u, fields_view(fs)),
        Hint::Fun(ps, r) => HintModel::Fun(hints_view(ps), Box::new(hint_view(r))),
        Hint::Access(r, ids) => HintModel::Access(Box::new(hint_view(r)), ids_view(ids)),
        Hint::FunContext(n) => HintModel::FunContext(n@),
        Hint::Var(n) => HintModel::Var(n@),
        Hint::Prim => HintModel::Prim,
        Hint::Mixed => HintModel::Mixed,
        Hint::Nonnull => HintModel::Nonnull,
        Hint::VecOrDict => HintModel::VecOrDict,
        Hint::This => HintModel::This,
        Hint::Nothing => HintModel::Nothing,
        Hint::Dynamic => HintModel::Dynamic,
        Hint::Error => HintModel::Error,
        Hint::Any => HintModel::Any,
        Hint::Abstr => HintModel::Abstr,
    }
}

impl View for Hint {
    type V = HintModel;

    open spec fn view(&self) -> HintModel {
        hint_view(self)
    }
}

pub proof fn lemma_hints_view(hs: &Vec<Hint>)
    ensures
        hints_view(hs).len() == hs.len(),
        forall|i: int| 0 <= i < hs.len() ==> #[trigger] hints_view(hs)[i] == hs@[i]@,
{
}

pub proof fn lemma_fields_view(fs: &Vec<ShapeField>)
    ensures
        fields_view(fs).len() == fs.len(),
        forall|i: int| 0 <= i < fs.len() ==> {
            &&& (#[trigger] fields_view(fs)[i]).optional == fs@[i].optional
            &&& fields_view(fs)[i].name == fs@[i].name@
            &&& fields_view(fs)[i].hint == fs@[i].hint@
        },
{
}

} // verus!
