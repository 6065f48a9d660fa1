//! What a comparison yields, stated as mathematics: the judgments in order
//! and the bindings afterwards, or the failure.

use crate::context::{lookup, names_of, resolve_self, self_marker, Bound};
use crate::item::{Callable, Item, ItemKind, ItemType, Parameter, PathArguments, Signature, WherePredicate};
use crate::query::{same_type, Argument, FnDecl, FnRetTy, Function, Query, QueryKind, Type};
use crate::similarity::{DiscreteSimilarity, Similarity};
use crate::symbol::symbol_similarity;
use vstd::prelude::*;

verus! {

/// Why a comparison gave no judgments.
#[derive(Debug, Clone, Copy, PartialEq, Eq, Structural)]
pub enum CompareError {
    /// The candidate refers to `Self` and no predicate in scope says what
    /// `Self` is.
    UnresolvedSelfType,
    /// The types are nested deeper than the comparison may descend.
    DepthExceeded,
}

/// The result of a comparison.
pub enum Outcome {
    /// The judgments, in order, and the bindings after the comparison.
    Done { sims: Seq<Similarity>, bound: Bound },
    /// The comparison failed.
    Failed(CompareError),
}

/// A single discrete judgment.
pub open spec fn verdict(d: DiscreteSimilarity) -> Seq<Similarity> {
    seq![Similarity::Discrete(d)]
}

/// `n` times `Different`.
pub open spec fn differents(n: nat) -> Seq<Similarity> {
    Seq::new(n, |k: int| Similarity::Discrete(DiscreteSimilarity::Different))
}

/// The distance between two lengths.
pub open spec fn gap(a: nat, b: nat) -> nat {
    if a >= b {
        (a - b) as nat
    } else {
        (b - a) as nat
    }
}

/// An outcome with `head` put before its judgments.
pub open spec fn after(head: Seq<Similarity>, rest: Outcome) -> Outcome {
    match rest {
        Outcome::Done { sims, bound } => Outcome::Done { sims: head + sims, bound },
        Outcome::Failed(e) => Outcome::Failed(e),
    }
}

/// An outcome with one more judgment at its end.
pub open spec fn then_one(first: Outcome, sim: Similarity) -> Outcome {
    match first {
        Outcome::Done { sims, bound } => Outcome::Done { sims: sims.push(sim), bound },
        Outcome::Failed(e) => Outcome::Failed(e),
    }
}

/// An outcome with `tail` put behind its judgments.
pub open spec fn then_all(first: Outcome, tail: Seq<Similarity>) -> Outcome {
    match first {
        Outcome::Done { sims, bound } => Outcome::Done { sims: sims + tail, bound },
        Outcome::Failed(e) => Outcome::Failed(e),
    }
}

/// The outcome of comparing a type pattern with a candidate type, descending
/// at most `depth` types deep.
///
/// A candidate `Self` stands for the type that the predicates give it. Any
/// other type variable is bound to the pattern on first sight (`Subequal`)
/// and must meet a structurally equal pattern from then on. Tuples and
/// slices match by shape and then by element; pointers and references by
/// their referent, with `Subequal` added where mutability differs or only one
/// side is a pointer; paths by name and then by argument; primitives by
/// name. Anything else is `Different`.
pub open spec fn type_outcome(
    q: Type,
    i: ItemType,
    scope: Seq<WherePredicate>,
    bound: Bound,
    depth: nat,
) -> Outcome
    decreases depth, 0int,
{
    if depth == 0 {
        Outcome::Failed(CompareError::DepthExceeded)
    } else {
        let d = (depth - 1) as nat;
        match (q, i) {
            (_, ItemType::Generic(name)) => {
                if name@ == self_marker() {
                    match resolve_self(scope, 0) {
                        Some(target) => type_outcome(q, target, scope, bound, d),
                        None => Outcome::Failed(CompareError::UnresolvedSelfType),
                    }
                } else {
                    match lookup(bound, name@, 0) {
                        Some(first) => Outcome::Done {
                            sims: verdict(
                                if same_type(q, first) {
                                    DiscreteSimilarity::Equivalent
                                } else {
                                    DiscreteSimilarity::Different
                                },
                            ),
                            bound,
                        },
                        None => Outcome::Done {
                            sims: verdict(DiscreteSimilarity::Subequal),
                            bound: bound.push((name@, q)),
                        },
                    }
                }
            },
            (Type::Tuple(qs), ItemType::Tuple(is)) => then_all(
                then_one(
                    elements_outcome(qs@, is@, 0, scope, bound, d),
                    Similarity::Discrete(DiscreteSimilarity::Equivalent),
                ),
                differents(gap(qs@.len(), is@.len())),
            ),
            (Type::Slice(qe), ItemType::Slice(ie)) => match qe {
                Some(pattern) => after(
                    verdict(DiscreteSimilarity::Equivalent),
                    type_outcome(*pattern, *ie, scope, bound, d),
                ),
                None => Outcome::Done { sims: verdict(DiscreteSimilarity::Equivalent), bound },
            },
            (
                Type::RawPointer { mutable: qm, type_: qt },
                ItemType::RawPointer { mutable: im, type_: it },
            ) => if qm == im {
                type_outcome(*qt, *it, scope, bound, d)
            } else {
                then_one(
                    type_outcome(*qt, *it, scope, bound, d),
                    Similarity::Discrete(DiscreteSimilarity::Subequal),
                )
            },
            (
                Type::BorrowedRef { mutable: qm, type_: qt },
                ItemType::BorrowedRef { mutable: im, type_: it },
            ) => if qm == im {
                type_outcome(*qt, *it, scope, bound, d)
            } else {
                then_one(
                    type_outcome(*qt, *it, scope, bound, d),
                    Similarity::Discrete(DiscreteSimilarity::Subequal),
                )
            },
            (_, ItemType::RawPointer { mutable, type_ }) => then_one(
                type_outcome(q, *type_, scope, bound, d),
                Similarity::Discrete(DiscreteSimilarity::Subequal),
            ),
            (_, ItemType::BorrowedRef { mutable, type_ }) => then_one(
                type_outcome(q, *type_, scope, bound, d),
                Similarity::Discrete(DiscreteSimilarity::Subequal),
            ),
            (Type::RawPointer { mutable, type_ }, _) => then_one(
                type_outcome(*type_, i, scope, bound, d),
                Similarity::Discrete(DiscreteSimilarity::Subequal),
            ),
            (Type::BorrowedRef { mutable, type_ }, _) => then_one(
                type_outcome(*type_, i, scope, bound, d),
                Similarity::Discrete(DiscreteSimilarity::Subequal),
            ),
            (
                Type::UnresolvedPath { name, args },
                ItemType::ResolvedPath { name: item_name, args: item_args },
            ) => after(
                seq![symbol_similarity(name@, item_name@)],
                match args {
                    None => Outcome::Done { sims: Seq::empty(), bound },
                    Some(qs) => match item_args {
                        None => Outcome::Done { sims: differents(qs@.len()), bound },
                        Some(PathArguments::Parenthesized) => Outcome::Done {
                            sims: Seq::empty(),
                            bound,
                        },
                        Some(PathArguments::AngleBracketed(is)) => arguments_outcome(
                            qs@,
                            is@,
                            0,
                            scope,
                            bound,
                            d,
                        ),
                    },
                },
            ),
            (Type::Primitive(a), ItemType::Primitive(b)) => Outcome::Done {
                sims: primitive_verdict(a@, b@),
                bound,
            },
            _ => Outcome::Done { sims: verdict(DiscreteSimilarity::Different), bound },
        }
    }
}

/// Primitives match by name and not at all otherwise.
pub open spec fn primitive_verdict(a: Seq<char>, b: Seq<char>) -> Seq<Similarity> {
    verdict(
        if a == b {
            DiscreteSimilarity::Equivalent
        } else {
            DiscreteSimilarity::Different
        },
    )
}

/// The outcome of comparing the elements of two tuples from position `at`
/// on, pair by pair as far as both reach. An absent pattern judges nothing.
pub open spec fn elements_outcome(
    qs: Seq<Option<Type>>,
    is: Seq<ItemType>,
    at: int,
    scope: Seq<WherePredicate>,
    bound: Bound,
    depth: nat,
) -> Outcome
    decreases depth, qs.len() - at + 1,
{
    if at < 0 || at >= qs.len() || at >= is.len() {
        Outcome::Done { sims: Seq::empty(), bound }
    } else {
        match qs[at] {
            None => elements_outcome(qs, is, at + 1, scope, bound, depth),
            Some(q) => match type_outcome(q, is[at], scope, bound, depth) {
                Outcome::Failed(e) => Outcome::Failed(e),
                Outcome::Done { sims, bound: next } => after(
                    sims,
                    elements_outcome(qs, is, at + 1, scope, next, depth),
                ),
            },
        }
    }
}

/// The outcome of comparing the generic arguments of two paths from position
/// `at` on, pair by pair as far as both reach. An absent pattern judges
/// nothing; a pattern against an argument that is no type is `Different`.
pub open spec fn arguments_outcome(
    qs: Seq<Option<Type>>,
    is: Seq<Option<ItemType>>,
    at: int,
    scope: Seq<WherePredicate>,
    bound: Bound,
    depth: nat,
) -> Outcome
    decreases depth, qs.len() - at + 1,
{
    if at < 0 || at >= qs.len() || at >= is.len() {
        Outcome::Done { sims: Seq::empty(), bound }
    } else {
        match qs[at] {
            None => arguments_outcome(qs, is, at + 1, scope, bound, depth),
            Some(q) => match is[at] {
                None => after(
                    verdict(DiscreteSimilarity::Different),
                    arguments_outcome(qs, is, at + 1, scope, bound, depth),
                ),
                Some(i) => match type_outcome(q, i, scope, bound, depth) {
                    Outcome::Failed(e) => Outcome::Failed(e),
                    Outcome::Done { sims, bound: next } => after(
                        sims,
                        arguments_outcome(qs, is, at + 1, scope, next, depth),
                    ),
                },
            },
        }
    }
}

/// The outcome of comparing a return-type pattern with a candidate's return
/// type: the types are compared where both name one, no return on both
/// sides is `Equivalent`, and one against none is `Different`.
pub open spec fn return_outcome(
    output: FnRetTy,
    ret: Option<ItemType>,
    scope: Seq<WherePredicate>,
    bound: Bound,
    depth: nat,
) -> Outcome {
    match (output, ret) {
        (FnRetTy::Return(q), Some(i)) => type_outcome(q, i, scope, bound, depth),
        (FnRetTy::DefaultReturn, None) => Outcome::Done {
            sims: verdict(DiscreteSimilarity::Equivalent),
            bound,
        },
        _ => Outcome::Done { sims: verdict(DiscreteSimilarity::Different), bound },
    }
}

/// The judgments on the names of an argument pattern and a parameter.
pub open spec fn name_sims(pattern: Option<String>, name: String) -> Seq<Similarity> {
    match pattern {
        Some(p) => seq![symbol_similarity(p@, name@)],
        None => Seq::empty(),
    }
}

/// The outcome of comparing an argument pattern with a parameter: the name,
/// where the pattern has one, then the type, where the pattern has one.
pub open spec fn argument_outcome(
    arg: Argument,
    param: Parameter,
    scope: Seq<WherePredicate>,
    bound: Bound,
    depth: nat,
) -> Outcome {
    after(
        name_sims(arg.name, param.name),
        match arg.ty {
            Some(q) => type_outcome(q, param.ty, scope, bound, depth),
            None => Outcome::Done { sims: Seq::empty(), bound },
        },
    )
}

/// The outcome of comparing argument patterns with parameters from position
/// `at` on, pair by pair as far as both reach.
pub open spec fn inputs_outcome(
    args: Seq<Argument>,
    params: Seq<Parameter>,
    at: int,
    scope: Seq<WherePredicate>,
    bound: Bound,
    depth: nat,
) -> Outcome
    decreases args.len() - at,
{
    if at < 0 || at >= args.len() || at >= params.len() {
        Outcome::Done { sims: Seq::empty(), bound }
    } else {
        match argument_outcome(args[at], params[at], scope, bound, depth) {
            Outcome::Failed(e) => Outcome::Failed(e),
            Outcome::Done { sims, bound: next } => after(
                sims,
                inputs_outcome(args, params, at + 1, scope, next, depth),
            ),
        }
    }
}

/// What the two input counts add to the judgments: `Different` once for each
/// input that one side has more than the other, `Equivalent` where both have
/// none, and nothing otherwise.
pub open spec fn arity_sims(wanted: nat, found: nat) -> Seq<Similarity> {
    if wanted != found {
        differents(gap(wanted, found))
    } else if wanted == 0 {
        verdict(DiscreteSimilarity::Equivalent)
    } else {
        Seq::empty()
    }
}

/// The outcome of comparing the input patterns, if the query has any, with
/// the candidate's inputs.
pub open spec fn all_inputs_outcome(
    inputs: Option<Vec<Argument>>,
    params: Seq<Parameter>,
    scope: Seq<WherePredicate>,
    bound: Bound,
    depth: nat,
) -> Outcome {
    match inputs {
        Some(args) => then_all(
            inputs_outcome(args@, params, 0, scope, bound, depth),
            arity_sims(args@.len(), params.len()),
        ),
        None => Outcome::Done { sims: Seq::empty(), bound },
    }
}

/// The outcome of comparing a declaration pattern with a signature: the
/// inputs, then the return type where the pattern constrains it.
pub open spec fn decl_outcome(
    decl: FnDecl,
    sig: Signature,
    scope: Seq<WherePredicate>,
    bound: Bound,
    depth: nat,
) -> Outcome {
    match all_inputs_outcome(decl.inputs, sig.inputs@, scope, bound, depth) {
        Outcome::Failed(e) => Outcome::Failed(e),
        Outcome::Done { sims, bound: next } => match decl.output {
            Some(output) => after(sims, return_outcome(output, sig.output, scope, next, depth)),
            None => Outcome::Done { sims, bound: next },
        },
    }
}

/// The outcome of comparing a function pattern with a callable, whose own
/// predicates join those in scope first.
pub open spec fn function_outcome(
    function: Function,
    callable: Callable,
    scope: Seq<WherePredicate>,
    bound: Bound,
    depth: nat,
) -> Outcome {
    decl_outcome(
        function.decl,
        callable.decl,
        scope + callable.generics.where_predicates@,
        bound,
        depth,
    )
}

/// The outcome of comparing a kind of query with a kind of candidate: a
/// function query meets functions and methods alike, and nothing else.
pub open spec fn kind_outcome(
    kind: QueryKind,
    inner: ItemKind,
    scope: Seq<WherePredicate>,
    bound: Bound,
    depth: nat,
) -> Outcome {
    match (kind, inner) {
        (QueryKind::FunctionQuery(f), ItemKind::Function(c)) => function_outcome(
            f,
            c,
            scope,
            bound,
            depth,
        ),
        (QueryKind::FunctionQuery(f), ItemKind::Method(c)) => function_outcome(
            f,
            c,
            scope,
            bound,
            depth,
        ),
        (QueryKind::FunctionQuery(f), ItemKind::Other) => Outcome::Done {
            sims: verdict(DiscreteSimilarity::Different),
            bound,
        },
    }
}

/// The predicates in scope once a candidate of this kind was compared with
/// a function query: a callable brings its own.
pub open spec fn scope_after(inner: ItemKind, scope: Seq<WherePredicate>) -> Seq<WherePredicate> {
    match inner {
        ItemKind::Function(c) => scope + c.generics.where_predicates@,
        ItemKind::Method(c) => scope + c.generics.where_predicates@,
        ItemKind::Other => scope,
    }
}

/// The type parameters in scope once a candidate of this kind was compared
/// with a function query: a callable brings its own.
pub open spec fn names_after(inner: ItemKind, names: Seq<Seq<char>>) -> Seq<Seq<char>> {
    match inner {
        ItemKind::Function(c) => names + names_of(c.generics),
        ItemKind::Method(c) => names + names_of(c.generics),
        ItemKind::Other => names,
    }
}

/// The judgments on the names of a query and a candidate: their likeness
/// where both have one, `Different` where only the query has one, nothing
/// where the query has none.
pub open spec fn item_name_sims(pattern: Option<String>, name: Option<String>) -> Seq<Similarity> {
    match (pattern, name) {
        (Some(p), Some(n)) => seq![symbol_similarity(p@, n@)],
        (Some(p), None) => verdict(DiscreteSimilarity::Different),
        _ => Seq::empty(),
    }
}

/// The outcome of comparing a query with a candidate: the name, then the
/// kind where the query asks for one.
pub open spec fn item_outcome(
    query: Query,
    item: Item,
    scope: Seq<WherePredicate>,
    bound: Bound,
    depth: nat,
) -> Outcome {
    after(
        item_name_sims(query.name, item.name),
        match query.kind {
            Some(kind) => kind_outcome(kind, item.inner, scope, bound, depth),
            None => Outcome::Done { sims: Seq::empty(), bound },
        },
    )
}

/// Putting two heads before an outcome is putting their concatenation
/// before it.
pub proof fn after_twice(a: Seq<Similarity>, b: Seq<Similarity>, rest: Outcome)
    ensures
        after(a, after(b, rest)) == after(a + b, rest),
{
    if let Outcome::Done { sims, bound } = rest {
        assert(a + (b + sims) =~= (a + b) + sims);
    }
}

/// Putting judgments before an outcome that adds none leaves just them.
pub proof fn after_nothing(a: Seq<Similarity>, bound: Bound)
    ensures
        after(a, Outcome::Done { sims: Seq::empty(), bound }) == (Outcome::Done { sims: a, bound }),
{
    assert(a + Seq::<Similarity>::empty() =~= a);
}

/// Putting nothing before an outcome leaves it as it is.
pub proof fn nothing_before(rest: Outcome)
    ensures
        after(Seq::empty(), rest) == rest,
{
    if let Outcome::Done { sims, bound } = rest {
        assert(Seq::<Similarity>::empty() + sims =~= sims);
    }
}

} // verus!
