//! The search pattern: what a caller asks for.

use vstd::prelude::*;

verus! {

/// A name pattern, matched approximately.
pub type Symbol = String;

/// A search pattern over declarations. An absent part matches anything.
#[derive(Debug)]
pub struct Query {
    pub name: Option<Symbol>,
    pub kind: Option<QueryKind>,
}

/// The kind of declaration that a query asks for.
#[derive(Debug)]
pub enum QueryKind {
    FunctionQuery(Function),
}

/// A function pattern.
#[derive(Debug)]
pub struct Function {
    pub decl: FnDecl,
}

/// The shape of a function pattern. Absent `inputs` leave arity and argument
/// types open; an absent `output` leaves the return type open.
#[derive(Debug)]
pub struct FnDecl {
    pub inputs: Option<Vec<Argument>>,
    pub output: Option<FnRetTy>,
}

/// One argument pattern.
#[derive(Debug)]
pub struct Argument {
    pub ty: Option<Type>,
    pub name: Option<Symbol>,
}

/// A return-type pattern.
#[derive(Debug)]
pub enum FnRetTy {
    Return(Type),
    DefaultReturn,
}

/// A type pattern. An absent element of a tuple, slice or argument list
/// matches anything.
#[derive(Debug)]
pub enum Type {
    UnresolvedPath { name: Symbol, args: Option<Vec<Option<Type>>> },
    Generic(String),
    Primitive(String),
    Tuple(Vec<Option<Type>>),
    Slice(Option<Box<Type>>),
    Never,
    RawPointer { mutable: bool, type_: Box<Type> },
    BorrowedRef { mutable: bool, type_: Box<Type> },
}

/// Structural equality of two type patterns: the same variant, equal names
/// and flags, and equal parts throughout.
pub open spec fn same_type(a: Type, b: Type) -> bool
    decreases a,
{
    match a {
        Type::UnresolvedPath { name, args } => match b {
            Type::UnresolvedPath { name: other, args: other_args } => name@ == other@ && match args {
                Some(xs) => other_args is Some && same_slots(xs, other_args->0),
                None => other_args is None,
            },
            _ => false,
        },
        Type::Generic(name) => b is Generic && name@ == b->Generic_0@,
        Type::Primitive(name) => b is Primitive && name@ == b->Primitive_0@,
        Type::Tuple(xs) => b is Tuple && same_slots(xs, b->Tuple_0),
        Type::Slice(x) => match b {
            Type::Slice(y) => match x {
                Some(inner) => y is Some && same_type(*inner, *y->0),
                None => y is None,
            },
            _ => false,
        },
        Type::Never => b is Never,
        Type::RawPointer { mutable, type_ } => match b {
            Type::RawPointer { mutable: other, type_: inner } => mutable == other && same_type(
                *type_,
                *inner,
            ),
            _ => false,
        },
        Type::BorrowedRef { mutable, type_ } => match b {
            Type::BorrowedRef { mutable: other, type_: inner } => mutable == other && same_type(
                *type_,
                *inner,
            ),
            _ => false,
        },
    }
}

/// Structural equality of one optional element.
pub open spec fn same_slot(x: Option<Type>, y: Option<Type>) -> bool
    decreases x,
{
    match x {
        Some(a) => y is Some && same_type(a, y->0),
        None => y is None,
    }
}

/// Structural equality of two lists of optional elements: equal lengths and
/// equal elements at each position.
pub open spec fn same_slots(xs: Vec<Option<Type>>, ys: Vec<Option<Type>>) -> bool
    decreases xs,
{
    xs.len() == ys.len() && forall|k: int|
        0 <= k < xs.len() ==> same_slot(#[trigger] xs[k], ys[k])
}

/// Tells whether two type patterns are structurally equal.
pub fn types_equal(a: &Type, b: &Type) -> (same: bool)
    ensures
        same == same_type(*a, *b),
    decreases *a,
{
    match (a, b) {
        (
            Type::UnresolvedPath { name, args },
            Type::UnresolvedPath { name: other, args: other_args },
        ) => {
            *name == *other && match (args, other_args) {
                (Some(xs), Some(ys)) => slots_equal(xs, ys),
                (None, None) => true,
                _ => false,
            }
        },
        (Type::Generic(name), Type::Generic(other)) => *name == *other,
        (Type::Primitive(name), Type::Primitive(other)) => *name == *other,
        (Type::Tuple(xs), Type::Tuple(ys)) => slots_equal(xs, ys),
        (Type::Slice(x), Type::Slice(y)) => match (x, y) {
            (Some(inner), Some(other)) => types_equal(inner, other),
            (None, None) => true,
            _ => false,
        },
        (Type::Never, Type::Never) => true,
        (
            Type::RawPointer { mutable, type_ },
            Type::RawPointer { mutable: other, type_: inner },
        ) => *mutable == *other && types_equal(type_, inner),
        (
            Type::BorrowedRef { mutable, type_ },
            Type::BorrowedRef { mutable: other, type_: inner },
        ) => *mutable == *other && types_equal(type_, inner),
        _ => false,
    }
}

/// Tells whether two lists of optional elements are structurally equal.
pub fn slots_equal(xs: &Vec<Option<Type>>, ys: &Vec<Option<Type>>) -> (same: bool)
    ensures
        same == same_slots(*xs, *ys),
    decreases *xs,
{
    if xs.len() != ys.len() {
        return false;
    }
    let mut at: usize = 0;
    while at < xs.len()
        invariant
            xs.len() == ys.len(),
            at <= xs.len(),
            forall|k: int| 0 <= k < at ==> same_slot(#[trigger] xs[k], ys[k]),
        decreases xs.len() - at,
    {
        let same = match (&xs[at], &ys[at]) {
            (Some(x), Some(y)) => types_equal(x, y),
            (None, None) => true,
            _ => false,
        };
        if !same {
            assert(!same_slot(xs[at as int], ys[at as int]));
            return false;
        }
        at += 1;
    }
    true
}

/// Structural equality relates every pattern to itself.
pub proof fn same_type_reflexive(a: Type)
    ensures
        same_type(a, a),
    decreases a,
{
    match a {
        Type::UnresolvedPath { name, args } => {
            if let Some(xs) = args {
                same_slots_reflexive(xs);
            }
        },
        Type::Tuple(xs) => same_slots_reflexive(xs),
        Type::Slice(Some(inner)) => same_type_reflexive(*inner),
        Type::RawPointer { mutable, type_ } => same_type_reflexive(*type_),
        Type::BorrowedRef { mutable, type_ } => same_type_reflexive(*type_),
        _ => {},
    }
}

/// Structural equality relates every list of elements to itself.
pub proof fn same_slots_reflexive(xs: Vec<Option<Type>>)
    ensures
        same_slots(xs, xs),
    decreases xs,
{
    assert forall|k: int| 0 <= k < xs.len() implies same_slot(#[trigger] xs[k], xs[k]) by {
        if let Some(a) = xs[k] {
            same_type_reflexive(a);
        }
    }
}

} // verus!
