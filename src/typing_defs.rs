use vstd::prelude::*;

use crate::instr::Pos;

verus! {

// The declarations that the type checker keeps of each definition. They are
// generic over `Ty`, the representation of a declared type.

/// Where a class constant that an initializer refers to comes from:
/// `self::A`, or `D::A` for a class `D`.
#[derive(Debug, Clone, PartialEq, Eq, Hash, PartialOrd, Ord)]
pub enum ClassConstFrom {
    Self_,
    From(String),
}

/// A reference to a class constant made by the initializer of another one;
/// kept to detect cycles between constant definitions.
#[derive(Debug, Clone, PartialEq, Eq, Hash, PartialOrd, Ord)]
pub struct ClassConstRef(pub ClassConstFrom, pub String);

/// A global constant.
#[derive(Debug, Clone, PartialEq, Eq, Hash, PartialOrd, Ord)]
pub struct ConstDecl<Ty> {
    pub pos: Pos,
    pub type_: Ty,
}

/// The visibility of a class element; private and protected elements
/// record the class that declares them.
#[derive(Debug, Clone, PartialEq, Eq, Hash, PartialOrd, Ord)]
pub enum CeVisibility {
    Public,
    Private(String),
    Protected(String),
    Internal(String),
}

/// A property or method of a class.
#[derive(Debug, Clone, PartialEq, Eq, Hash, PartialOrd, Ord)]
pub struct ClassElt<Ty> {
    pub visibility: CeVisibility,
    pub type_: Ty,
    /// The class this element originates from.
    pub origin: String,
    pub deprecated: Option<String>,
    /// The position of the element's type.
    pub pos: Pos,
    pub flags: u16,
}

/// A top-level function.
#[derive(Debug, Clone, PartialEq, Eq, Hash, PartialOrd, Ord)]
pub struct FunElt<Ty> {
    pub deprecated: Option<String>,
    pub module: Option<String>,
    /// Top-level functions have limited visibilities.
    pub internal: bool,
    pub type_: Ty,
    pub pos: Pos,
    pub php_std_lib: bool,
    pub support_dynamic_type: bool,
}

#[derive(Debug, Clone, Copy, PartialEq, Eq, Hash, PartialOrd, Ord)]
pub enum ClassConstKind {
    /// Abstract; whether it has a default.
    CCAbstract(bool),
    CCConcrete,
}

/// A class constant.
#[derive(Debug, Clone, PartialEq, Eq, Hash, PartialOrd, Ord)]
pub struct ClassConst<Ty> {
    pub synthesized: bool,
    pub abstract_: ClassConstKind,
    pub pos: Pos,
    pub type_: Ty,
    /// The class this constant originates from.
    pub origin: String,
    /// The constants that its initializer refers to.
    pub refs: Vec<ClassConstRef>,
}

/// A requirement that a class applies to its users, at the position of the
/// hint that causes it.
#[derive(Debug, Clone, PartialEq, Eq, Hash, PartialOrd, Ord)]
pub struct Requirement<Ty>(pub Pos, pub Ty);

#[derive(Debug, Clone, PartialEq, Eq, Hash, PartialOrd, Ord)]
pub struct AbstractTypeconst<Ty> {
    pub as_constraint: Option<Ty>,
    pub super_constraint: Option<Ty>,
    pub default: Option<Ty>,
}

#[derive(Debug, Clone, PartialEq, Eq, Hash, PartialOrd, Ord)]
pub struct ConcreteTypeconst<Ty> {
    pub tc_type: Ty,
}

#[derive(Debug, Clone, PartialEq, Eq, Hash, PartialOrd, Ord)]
pub struct PartiallyAbstractTypeconst<Ty> {
    pub constraint: Ty,
    pub type_: Ty,
}

#[derive(Debug, Clone, PartialEq, Eq, Hash, PartialOrd, Ord)]
pub enum Typeconst<Ty> {
    TCAbstract(AbstractTypeconst<Ty>),
    TCConcrete(ConcreteTypeconst<Ty>),
}

/// A type constant of a class.
#[derive(Debug, Clone, PartialEq, Eq, Hash, PartialOrd, Ord)]
pub struct TypeconstType<Ty> {
    pub synthesized: bool,
    pub name: String,
    pub name_pos: Pos,
    pub kind: Typeconst<Ty>,
    pub origin: String,
    /// Whether the constant was declared enforceable, and where.
    pub enforceable: bool,
    pub enforceable_pos: Pos,
    pub reifiable: Option<Pos>,
    pub concretized: bool,
    pub is_ctx: bool,
}

/// The underlying type of an enum, its constraint and the enums it includes.
#[derive(Debug, Clone, PartialEq, Eq, Hash, PartialOrd, Ord)]
pub struct EnumType<Ty> {
    pub base: Ty,
    pub constraint: Option<Ty>,
    pub includes: Vec<Ty>,
}

#[derive(Debug, Clone, Copy, PartialEq, Eq, Hash, PartialOrd, Ord)]
pub enum TypedefVisibility {
    Transparent,
    Opaque,
    OpaqueModule,
}

/// A type alias.
#[derive(Debug, Clone, PartialEq, Eq, Hash, PartialOrd, Ord)]
pub struct TypedefType<Ty> {
    pub module: Option<String>,
    pub pos: Pos,
    pub vis: TypedefVisibility,
    /// The names of its type parameters.
    pub tparams: Vec<String>,
    pub constraint: Option<Ty>,
    pub type_: Ty,
    pub is_ctx: bool,
    /// The names of its attributes.
    pub attributes: Vec<String>,
}

/// Why a serialized type could not be read back.
#[derive(Debug, Clone, PartialEq, Eq, Hash, PartialOrd, Ord)]
pub enum DeserializationError {
    /// A part was a declared type where a localized one was expected, or
    /// the other way round.
    WrongPhase(String),
    /// The type, or a part of it, cannot be read back.
    NotSupported(String),
    /// The input was malformed.
    DeserializationError(String),
}

} // verus!
