use vstd::prelude::*;

verus! {

/// A jump target, unique within one method body.
#[derive(Debug, Clone, Copy, PartialEq, Eq)]
pub struct Label {
    pub id: u64,
}

/// A source range; `line_*` and `col_*` are 1-based.
#[derive(Debug, Clone, Copy, PartialEq, Eq, Hash, PartialOrd, Ord)]
pub struct Pos {
    pub line_begin: u64,
    pub col_begin: u64,
    pub line_end: u64,
    pub col_end: u64,
}

/// The line range that a method or class record carries.
#[derive(Debug, Clone, Copy, PartialEq, Eq)]
pub struct Span {
    pub line_begin: u64,
    pub line_end: u64,
}

impl Span {
    pub fn from_pos(p: &Pos) -> (r: Span)
        ensures
            r.line_begin == p.line_begin,
            r.line_end == p.line_end,
    {
        Span { line_begin: p.line_begin, line_end: p.line_end }
    }
}

/// A local variable slot: a named local (parameters and declared variables),
/// a named local that the compiler reserves, or an unnamed one minted by the
/// emitter.
#[derive(Debug, PartialEq, Eq)]
pub enum Local {
    Named(String),
    Reserved(&'static str),
    Unnamed(u64),
}

impl Clone for Local {
    fn clone(&self) -> (r: Self)
        ensures
            r == *self,
    {
        match self {
            Local::Named(n) => Local::Named(n.clone()),
            Local::Reserved(n) => Local::Reserved(*n),
            Local::Unnamed(i) => Local::Unnamed(*i),
        }
    }
}

#[derive(Debug, Clone, Copy, PartialEq, Eq)]
pub enum FatalOp {
    Parse,
    Runtime,
    RuntimeOmitFrame,
}

#[derive(Debug, Clone, Copy, PartialEq, Eq)]
pub enum SpecialClsRef {
    SelfCls,
    Static,
    Parent,
}

/// Arguments of a call instruction.
#[derive(Debug, Clone, Copy, PartialEq, Eq)]
pub struct FcallArgs {
    /// The callee also receives the reified generics as a trailing argument.
    pub has_generics: bool,
    pub num_args: u64,
    pub num_rets: u64,
    /// Where an awaitable that finished eagerly is delivered.
    pub async_eager_target: Option<Label>,
}

/// A run of unnamed locals holding the memoization key: `first`, `first + 1`, ...
#[derive(Debug, Clone, Copy, PartialEq, Eq)]
pub struct MemoKeyRange {
    pub first: u64,
    pub count: u64,
}

/// The case table of a string switch, in order.
#[derive(Debug, PartialEq, Eq)]
pub enum SwitchCases {
    End,
    Case(String, Label, Box<SwitchCases>),
}

impl SwitchCases {
    /// The table as a sequence of (case string, target) pairs.
    pub open spec fn cases(&self) -> Seq<(Seq<char>, Label)>
        decreases self,
    {
        match self {
            SwitchCases::End => Seq::empty(),
            SwitchCases::Case(s, l, rest) => seq![(s@, *l)] + rest.cases(),
        }
    }

    pub fn copy(&self) -> (r: SwitchCases)
        ensures
            r == *self,
        decreases self,
    {
        match self {
            SwitchCases::End => SwitchCases::End,
            SwitchCases::Case(s, l, rest) => SwitchCases::Case(s.clone(), *l, Box::new(rest.copy())),
        }
    }
}

impl Clone for SwitchCases {
    fn clone(&self) -> (r: Self)
        ensures
            r == *self,
    {
        self.copy()
    }
}

/// The instruction vocabulary that this stage produces.
#[derive(Debug, PartialEq, Eq)]
pub enum Instr {
    /// A jump target.
    Label(Label),
    /// A source position marker.
    SrcLoc(Pos),
    Null,
    NullUninit,
    Int(i64),
    String(String),
    /// A string constant fixed by the compiler.
    StringLit(&'static str),
    /// Push a vec literal of the given size (0: empty).
    NewVec(u64),
    ConcatN(u64),
    CGetL(Local),
    SetL(Local),
    PopC,
    RetC,
    /// Return a result while keeping an async function suspended.
    RetCSuspended,
    JmpNZ(Label),
    /// Multi-way dispatch on the string on top of the stack.
    SSwitch(SwitchCases),
    Fatal(FatalOp),
    CheckThis,
    BaseH,
    /// Store into the property of the base, then leave the value on the stack.
    SetMPT(u64, &'static str),
    CheckReifiedGenericMismatch,
    RecordReifiedGeneric,
    /// Call a function by name.
    FCallFuncD(FcallArgs, String),
    /// Call a static method of a class given by a special reference.
    FCallClsMethodSD(FcallArgs, SpecialClsRef, &'static str),
    /// Load the memo-key form of a local.
    GetMemoKeyL(Local),
    /// Push the memo key of the ambient implicit context.
    GetMemoAgnosticImplicitContext,
    /// Cache lookup; jumps to the label on a miss.
    MemoGet(Label, Option<MemoKeyRange>),
    /// Async cache lookup: misses jump to the first label, suspended
    /// results to the second; an eagerly finished result falls through.
    MemoGetEager(Label, Label, Option<MemoKeyRange>),
    MemoSet(Option<MemoKeyRange>),
    MemoSetEager(Option<MemoKeyRange>),
    /// Verify a parameter or return value against a type structure.
    VerifyTypeTS,
}

impl Clone for Instr {
    fn clone(&self) -> (r: Self)
        ensures
            r == *self,
    {
        match self {
            Instr::Label(l) => Instr::Label(*l),
            Instr::SrcLoc(p) => Instr::SrcLoc(*p),
            Instr::Null => Instr::Null,
            Instr::NullUninit => Instr::NullUninit,
            Instr::Int(i) => Instr::Int(*i),
            Instr::String(s) => Instr::String(s.clone()),
            Instr::StringLit(s) => Instr::StringLit(*s),
            Instr::NewVec(n) => Instr::NewVec(*n),
            Instr::ConcatN(n) => Instr::ConcatN(*n),
            Instr::CGetL(l) => Instr::CGetL(l.clone()),
            Instr::SetL(l) => Instr::SetL(l.clone()),
            Instr::PopC => Instr::PopC,
            Instr::RetC => Instr::RetC,
            Instr::RetCSuspended => Instr::RetCSuspended,
            Instr::JmpNZ(l) => Instr::JmpNZ(*l),
            Instr::SSwitch(c) => Instr::SSwitch(c.copy()),
            Instr::Fatal(op) => Instr::Fatal(*op),
            Instr::CheckThis => Instr::CheckThis,
            Instr::BaseH => Instr::BaseH,
            Instr::SetMPT(n, p) => Instr::SetMPT(*n, *p),
            Instr::CheckReifiedGenericMismatch => Instr::CheckReifiedGenericMismatch,
            Instr::RecordReifiedGeneric => Instr::RecordReifiedGeneric,
            Instr::FCallFuncD(a, f) => Instr::FCallFuncD(*a, f.clone()),
            Instr::FCallClsMethodSD(a, c, m) => Instr::FCallClsMethodSD(*a, *c, *m),
            Instr::GetMemoKeyL(l) => Instr::GetMemoKeyL(l.clone()),
            Instr::GetMemoAgnosticImplicitContext => Instr::GetMemoAgnosticImplicitContext,
            Instr::MemoGet(l, k) => Instr::MemoGet(*l, *k),
            Instr::MemoGetEager(l1, l2, k) => Instr::MemoGetEager(*l1, *l2, *k),
            Instr::MemoSet(k) => Instr::MemoSet(*k),
            Instr::MemoSetEager(k) => Instr::MemoSetEager(*k),
            Instr::VerifyTypeTS => Instr::VerifyTypeTS,
        }
    }
}

/// A copy of an instruction sequence.
pub fn copy_instrs(v: &Vec<Instr>) -> (r: Vec<Instr>)
    ensures
        r@ == v@,
{
    let mut r: Vec<Instr> = Vec::new();
    let mut i: usize = 0;
    while i < v.len()
        invariant
            i <= v.len(),
            r@ == v@.subrange(0, i as int),
        decreases v.len() - i,
    {
        r.push(v[i].clone());
        i = i + 1;
    }
    r
}

/// Appends a copy of `src` to `dst`.
pub fn append_copy(dst: &mut Vec<Instr>, src: &Vec<Instr>)
    ensures
        final(dst)@ == old(dst)@ + src@,
{
    let mut c = copy_instrs(src);
    dst.append(&mut c);
}

/// `pos` as a source-position marker.
pub open spec fn emit_pos_spec(pos: Pos) -> Seq<Instr> {
    seq![Instr::SrcLoc(pos)]
}

pub fn emit_pos(pos: &Pos) -> (r: Vec<Instr>)
    ensures
        r@ == emit_pos_spec(*pos),
{
    let mut r: Vec<Instr> = Vec::new();
    r.push(Instr::SrcLoc(*pos));
    r
}

/// The sequence `instrs` preceded by a position marker for `pos`.
pub fn emit_pos_then(pos: &Pos, instrs: Vec<Instr>) -> (r: Vec<Instr>)
    ensures
        r@ == emit_pos_spec(*pos) + instrs@,
{
    let mut r = emit_pos(pos);
    let mut instrs = instrs;
    r.append(&mut instrs);
    r
}

} // verus!
