//! What holds of every comparison.

use crate::context::{extends, lookup, resolve_self, self_marker, Bound};
use crate::item::{Callable, ItemKind, ItemType, Parameter, PathArguments, WherePredicate};
use crate::outcome::{
    after_nothing, argument_outcome, arguments_outcome, elements_outcome, kind_outcome, name_sims, then_one,
    type_outcome, verdict, Outcome,
};
use crate::query::{same_type, same_type_reflexive, Argument, Function, QueryKind, Type};
use crate::similarity::{DiscreteSimilarity, Similarity};
use vstd::prelude::*;

verus! {

/// A name that is looked up right after it was bound, and was not bound
/// before, yields the pattern it was bound to.
pub proof fn lookup_after_push(bound: Bound, name: Seq<char>, pattern: Type, from: int)
    requires
        0 <= from <= bound.len(),
        lookup(bound, name, from) is None,
    ensures
        lookup(bound.push((name, pattern)), name, from) == Some(pattern),
    decreases bound.len() - from,
{
    let longer = bound.push((name, pattern));
    if from < bound.len() {
        assert(longer[from] == bound[from]);
        lookup_after_push(bound, name, pattern, from + 1);
    } else {
        assert(longer[from] == (name, pattern));
    }
}

/// One type variable resolves consistently across a comparison. Where a
/// candidate's type variable is not bound yet, the first pattern that meets
/// it is judged `Subequal` and bound to it. Every later pattern that meets
/// the variable is judged `Equivalent` if it equals the first structurally
/// and `Different` if not, and the binding stays.
pub proof fn variable_resolves_consistently(
    first: Type,
    later: Type,
    name: String,
    scope: Seq<WherePredicate>,
    bound: Bound,
    depth: nat,
)
    requires
        depth > 0,
        name@ != self_marker(),
        lookup(bound, name@, 0) is None,
    ensures
        type_outcome(first, ItemType::Generic(name), scope, bound, depth) == (Outcome::Done {
            sims: verdict(DiscreteSimilarity::Subequal),
            bound: bound.push((name@, first)),
        }),
        type_outcome(later, ItemType::Generic(name), scope, bound.push((name@, first)), depth) == (
        Outcome::Done {
            sims: verdict(
                if same_type(later, first) {
                    DiscreteSimilarity::Equivalent
                } else {
                    DiscreteSimilarity::Different
                },
            ),
            bound: bound.push((name@, first)),
        }),
        type_outcome(first, ItemType::Generic(name), scope, bound.push((name@, first)), depth) == (
        Outcome::Done {
            sims: verdict(DiscreteSimilarity::Equivalent),
            bound: bound.push((name@, first)),
        }),
{
    lookup_after_push(bound, name@, first, 0);
    same_type_reflexive(first);
}

/// Two references, or two raw pointers, are judged by what they point to.
/// Equal mutability adds nothing to those judgments; unequal mutability adds
/// exactly one `Subequal` at their end.
pub proof fn mutability_adds_at_most_one(
    q: Type,
    i: ItemType,
    scope: Seq<WherePredicate>,
    bound: Bound,
    depth: nat,
)
    requires
        depth > 0,
    ensures
        match (q, i) {
            (
                Type::BorrowedRef { mutable: qm, type_: qt },
                ItemType::BorrowedRef { mutable: im, type_: it },
            ) => type_outcome(q, i, scope, bound, depth) == (if qm == im {
                type_outcome(*qt, *it, scope, bound, (depth - 1) as nat)
            } else {
                then_one(
                    type_outcome(*qt, *it, scope, bound, (depth - 1) as nat),
                    Similarity::Discrete(DiscreteSimilarity::Subequal),
                )
            }),
            (
                Type::RawPointer { mutable: qm, type_: qt },
                ItemType::RawPointer { mutable: im, type_: it },
            ) => type_outcome(q, i, scope, bound, depth) == (if qm == im {
                type_outcome(*qt, *it, scope, bound, (depth - 1) as nat)
            } else {
                then_one(
                    type_outcome(*qt, *it, scope, bound, (depth - 1) as nat),
                    Similarity::Discrete(DiscreteSimilarity::Subequal),
                )
            }),
            _ => true,
        },
{
}

/// An argument pattern without a type pattern meets a parameter of any type
/// with no judgment on the type and no new binding: only the name is
/// judged, and with no name pattern either, nothing is.
pub proof fn untyped_argument_matches_any(
    arg: Argument,
    param: Parameter,
    scope: Seq<WherePredicate>,
    bound: Bound,
    depth: nat,
)
    requires
        arg.ty is None,
    ensures
        argument_outcome(arg, param, scope, bound, depth) == (Outcome::Done {
            sims: name_sims(arg.name, param.name),
            bound,
        }),
        arg.name is None ==> argument_outcome(arg, param, scope, bound, depth) == (Outcome::Done {
            sims: Seq::empty(),
            bound,
        }),
{
    after_nothing(name_sims(arg.name, param.name), bound);
}

/// Whether an outcome, if it is one of success, kept all the bindings that
/// the comparison started with.
pub open spec fn keeps(outcome: Outcome, bound: Bound) -> bool {
    match outcome {
        Outcome::Done { sims, bound: after } => extends(after, bound),
        Outcome::Failed(e) => true,
    }
}

/// Comparing types never drops or changes a binding: the bindings after
/// the comparison are those before it, with the new ones behind them.
pub proof fn type_comparison_keeps_bindings(
    q: Type,
    i: ItemType,
    scope: Seq<WherePredicate>,
    bound: Bound,
    depth: nat,
)
    ensures
        keeps(type_outcome(q, i, scope, bound, depth), bound),
    decreases depth, 0int,
{
    if depth > 0 {
        let d = (depth - 1) as nat;
        match (q, i) {
            (_, ItemType::Generic(name)) => {
                if name@ == self_marker() {
                    if let Some(target) = resolve_self(scope, 0) {
                        type_comparison_keeps_bindings(q, target, scope, bound, d);
                    }
                }
            },
            (Type::Tuple(qs), ItemType::Tuple(is)) => {
                elements_comparison_keeps_bindings(qs@, is@, 0, scope, bound, d);
            },
            (Type::Slice(qe), ItemType::Slice(ie)) => {
                if let Some(pattern) = qe {
                    type_comparison_keeps_bindings(*pattern, *ie, scope, bound, d);
                }
            },
            (
                Type::RawPointer { mutable: qm, type_: qt },
                ItemType::RawPointer { mutable: im, type_: it },
            ) => {
                type_comparison_keeps_bindings(*qt, *it, scope, bound, d);
            },
            (
                Type::BorrowedRef { mutable: qm, type_: qt },
                ItemType::BorrowedRef { mutable: im, type_: it },
            ) => {
                type_comparison_keeps_bindings(*qt, *it, scope, bound, d);
            },
            (_, ItemType::RawPointer { mutable, type_ }) => {
                type_comparison_keeps_bindings(q, *type_, scope, bound, d);
            },
            (_, ItemType::BorrowedRef { mutable, type_ }) => {
                type_comparison_keeps_bindings(q, *type_, scope, bound, d);
            },
            (Type::RawPointer { mutable, type_ }, _) => {
                type_comparison_keeps_bindings(*type_, i, scope, bound, d);
            },
            (Type::BorrowedRef { mutable, type_ }, _) => {
                type_comparison_keeps_bindings(*type_, i, scope, bound, d);
            },
            (
                Type::UnresolvedPath { name, args },
                ItemType::ResolvedPath { name: item_name, args: item_args },
            ) => {
                if let Some(qs) = args {
                    if let Some(PathArguments::AngleBracketed(is)) = item_args {
                        arguments_comparison_keeps_bindings(qs@, is@, 0, scope, bound, d);
                    }
                }
            },
            _ => {},
        }
    }
}

/// Comparing the elements of tuples never drops or changes a binding.
pub proof fn elements_comparison_keeps_bindings(
    qs: Seq<Option<Type>>,
    is: Seq<ItemType>,
    at: int,
    scope: Seq<WherePredicate>,
    bound: Bound,
    depth: nat,
)
    ensures
        keeps(elements_outcome(qs, is, at, scope, bound, depth), bound),
    decreases depth, qs.len() - at + 1,
{
    if !(at < 0 || at >= qs.len() || at >= is.len()) {
        match qs[at] {
            None => elements_comparison_keeps_bindings(qs, is, at + 1, scope, bound, depth),
            Some(q) => {
                type_comparison_keeps_bindings(q, is[at], scope, bound, depth);
                if let Outcome::Done { sims, bound: next } = type_outcome(
                    q,
                    is[at],
                    scope,
                    bound,
                    depth,
                ) {
                    elements_comparison_keeps_bindings(qs, is, at + 1, scope, next, depth);
                }
            },
        }
    }
}

/// Comparing the generic arguments of paths never drops or changes a
/// binding.
pub proof fn arguments_comparison_keeps_bindings(
    qs: Seq<Option<Type>>,
    is: Seq<Option<ItemType>>,
    at: int,
    scope: Seq<WherePredicate>,
    bound: Bound,
    depth: nat,
)
    ensures
        keeps(arguments_outcome(qs, is, at, scope, bound, depth), bound),
    decreases depth, qs.len() - at + 1,
{
    if !(at < 0 || at >= qs.len() || at >= is.len()) {
        match qs[at] {
            None => arguments_comparison_keeps_bindings(qs, is, at + 1, scope, bound, depth),
            Some(q) => match is[at] {
                None => arguments_comparison_keeps_bindings(qs, is, at + 1, scope, bound, depth),
                Some(i) => {
                    type_comparison_keeps_bindings(q, i, scope, bound, depth);
                    if let Outcome::Done { sims, bound: next } = type_outcome(
                        q,
                        i,
                        scope,
                        bound,
                        depth,
                    ) {
                        arguments_comparison_keeps_bindings(qs, is, at + 1, scope, next, depth);
                    }
                },
            },
        }
    }
}

/// A function query judges a method exactly as it judges a free function
/// of the same declaration.
pub proof fn methods_match_as_functions(
    function: Function,
    callable: Callable,
    scope: Seq<WherePredicate>,
    bound: Bound,
    depth: nat,
)
    ensures
        kind_outcome(
            QueryKind::FunctionQuery(function),
            ItemKind::Method(callable),
            scope,
            bound,
            depth,
        ) == kind_outcome(
            QueryKind::FunctionQuery(function),
            ItemKind::Function(callable),
            scope,
            bound,
            depth,
        ),
{
}

} // verus!
