//! The candidate: a declaration as it was found in a code base.

use vstd::prelude::*;

verus! {

/// A candidate declaration.
#[derive(Debug)]
pub struct Item {
    pub name: Option<String>,
    pub inner: ItemKind,
}

/// What kind of declaration a candidate is.
#[derive(Debug)]
pub enum ItemKind {
    Function(Callable),
    Method(Callable),
    /// Anything that cannot be called.
    Other,
}

/// A free function or a method.
#[derive(Debug)]
pub struct Callable {
    pub decl: Signature,
    pub generics: Generics,
}

/// The inputs and the return type of a callable; no `output` means that it
/// returns nothing of interest.
#[derive(Debug)]
pub struct Signature {
    pub inputs: Vec<Parameter>,
    pub output: Option<ItemType>,
}

/// One declared parameter.
#[derive(Debug)]
pub struct Parameter {
    pub name: String,
    pub ty: ItemType,
}

/// Type parameters, by name, and the predicates of the `where` clause.
#[derive(Debug)]
pub struct Generics {
    pub params: Vec<String>,
    pub where_predicates: Vec<WherePredicate>,
}

/// One predicate of a `where` clause.
#[derive(Debug)]
pub enum WherePredicate {
    /// `lhs = rhs`.
    Equality { lhs: ItemType, rhs: ItemType },
    /// A bound on a type or on a lifetime.
    Other,
}

/// A type as it stands in a candidate declaration.
#[derive(Debug)]
pub enum ItemType {
    ResolvedPath { name: String, args: Option<PathArguments> },
    /// A type parameter, or the marker `Self` for the enclosing type.
    Generic(String),
    Primitive(String),
    Tuple(Vec<ItemType>),
    Slice(Box<ItemType>),
    RawPointer { mutable: bool, type_: Box<ItemType> },
    BorrowedRef { mutable: bool, type_: Box<ItemType> },
    /// Any other form: arrays, function pointers, `impl Trait`, `!`, `_`,
    /// qualified paths.
    Other,
}

/// The generic arguments of a path.
#[derive(Debug)]
pub enum PathArguments {
    /// `<A, B>`: one entry per argument, absent where the argument is not a
    /// type.
    AngleBracketed(Vec<Option<ItemType>>),
    /// `(A, B) -> C`.
    Parenthesized,
}

} // verus!
