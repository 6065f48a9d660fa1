//! The comparators: each computes the outcome that the `outcome` module defines for it.

use crate::context::{extends, is_self_name, names_of, Bound, Context, DEPTH_LIMIT};
use crate::item::{
    Callable, Item, ItemKind, ItemType, Parameter, PathArguments, Signature, WherePredicate,
};
use crate::outcome::{
    after, after_nothing, after_twice, all_inputs_outcome, argument_outcome, arguments_outcome,
    arity_sims, decl_outcome, differents, elements_outcome, function_outcome, gap, inputs_outcome,
    item_name_sims, item_outcome, kind_outcome, name_sims, names_after, nothing_before,
    primitive_verdict, return_outcome, scope_after, then_one, type_outcome, verdict, CompareError,
    Outcome,
};
use crate::query::{types_equal, Argument, FnDecl, FnRetTy, Function, Query, QueryKind, Type};
use crate::similarity::{
    list_append, list_new, list_push, DiscreteSimilarity, Similarities, Similarity,
};
use crate::symbol::{compare_symbol, symbol_similarity};
use vstd::prelude::*;

verus! {

/// Whether a comparator's result and the bindings it left are those of the
/// outcome.
pub open spec fn agrees(
    result: Result<Similarities, CompareError>,
    bound: Bound,
    outcome: Outcome,
) -> bool {
    match outcome {
        Outcome::Done { sims, bound: expected } => result is Ok && result->Ok_0@ == sims && bound
            == expected,
        Outcome::Failed(e) => result is Err && result->Err_0 == e,
    }
}

/// The distance between two lengths.
pub fn distance(a: usize, b: usize) -> (d: usize)
    ensures
        d == gap(a as nat, b as nat),
{
    if a >= b {
        a - b
    } else {
        b - a
    }
}

/// A list of one discrete judgment.
pub fn single(d: DiscreteSimilarity) -> (list: Similarities)
    ensures
        list@ == seq![Similarity::Discrete(d)],
{
    let mut list = list_new();
    list_push(&mut list, Similarity::Discrete(d));
    proof {
        assert(list@ =~= seq![Similarity::Discrete(d)]);
    }
    list
}

/// Adds `Different` to the list `n` times.
pub fn push_differents(list: &mut Similarities, n: usize)
    ensures
        final(list)@ == old(list)@ + differents(n as nat),
{
    let ghost start = list@;
    let mut done: usize = 0;
    proof {
        assert(start + differents(0) =~= start);
    }
    while done < n
        invariant
            done <= n,
            list@ == start + differents(done as nat),
        decreases n - done,
    {
        list_push(list, Similarity::Discrete(DiscreteSimilarity::Different));
        proof {
            assert((start + differents(done as nat)).push(
                Similarity::Discrete(DiscreteSimilarity::Different),
            ) =~= start + differents((done + 1) as nat));
        }
        done += 1;
    }
}

/// Compares the name of a primitive pattern with the name of a primitive.
pub fn compare_primitive(pattern: &String, name: &String) -> (list: Similarities)
    ensures
        list@ == primitive_verdict(pattern@, name@),
{
    if *pattern == *name {
        single(DiscreteSimilarity::Equivalent)
    } else {
        single(DiscreteSimilarity::Different)
    }
}

/// Compares a type pattern with a candidate type, at most `depth` deep.
pub fn compare_type_within<'a>(
    q: &'a Type,
    i: &'a ItemType,
    ctx: &mut Context<'a>,
    depth: usize,
) -> (result: Result<Similarities, CompareError>)
    ensures
        final(ctx).params == old(ctx).params,
        final(ctx).predicates == old(ctx).predicates,
        final(ctx).limit == old(ctx).limit,
        extends(final(ctx).bound(), old(ctx).bound()),
        agrees(
            result,
            final(ctx).bound(),
            type_outcome(*q, *i, old(ctx).scope(), old(ctx).bound(), depth as nat),
        ),
    decreases depth, 0int,
{
    if depth == 0 {
        return Err(CompareError::DepthExceeded);
    }
    match (q, i) {
        (_, ItemType::Generic(name)) => {
            if is_self_name(name) {
                match ctx.find_self() {
                    Some(target) => compare_type_within(q, target, ctx, depth - 1),
                    None => Err(CompareError::UnresolvedSelfType),
                }
            } else {
                match ctx.find_binding(name) {
                    Some(first) => {
                        if types_equal(q, first) {
                            Ok(single(DiscreteSimilarity::Equivalent))
                        } else {
                            Ok(single(DiscreteSimilarity::Different))
                        }
                    },
                    None => {
                        ctx.bind(name, q);
                        Ok(single(DiscreteSimilarity::Subequal))
                    },
                }
            }
        },
        (Type::Tuple(qs), ItemType::Tuple(is)) => {
            match compare_elements(qs, is, ctx, depth - 1) {
                Ok(mut sims) => {
                    list_push(&mut sims, Similarity::Discrete(DiscreteSimilarity::Equivalent));
                    push_differents(&mut sims, distance(qs.len(), is.len()));
                    Ok(sims)
                },
                Err(e) => Err(e),
            }
        },
        (Type::Slice(qe), ItemType::Slice(ie)) => {
            let mut sims = single(DiscreteSimilarity::Equivalent);
            match qe {
                Some(pattern) => match compare_type_within(pattern, ie, ctx, depth - 1) {
                    Ok(rest) => {
                        list_append(&mut sims, rest);
                        Ok(sims)
                    },
                    Err(e) => Err(e),
                },
                None => Ok(sims),
            }
        },
        (
            Type::RawPointer { mutable: qm, type_: qt },
            ItemType::RawPointer { mutable: im, type_: it },
        ) => compare_referents(qt, it, *qm != *im, ctx, depth - 1),
        (
            Type::BorrowedRef { mutable: qm, type_: qt },
            ItemType::BorrowedRef { mutable: im, type_: it },
        ) => compare_referents(qt, it, *qm != *im, ctx, depth - 1),
        (_, ItemType::RawPointer { mutable: _, type_ }) => compare_referents(
            q,
            type_,
            true,
            ctx,
            depth - 1,
        ),
        (_, ItemType::BorrowedRef { mutable: _, type_ }) => compare_referents(
            q,
            type_,
            true,
            ctx,
            depth - 1,
        ),
        (Type::RawPointer { mutable: _, type_ }, _) => compare_referents(
            type_,
            i,
            true,
            ctx,
            depth - 1,
        ),
        (Type::BorrowedRef { mutable: _, type_ }, _) => compare_referents(
            type_,
            i,
            true,
            ctx,
            depth - 1,
        ),
        (
            Type::UnresolvedPath { name, args },
            ItemType::ResolvedPath { name: item_name, args: item_args },
        ) => {
            let mut sims = list_new();
            list_push(&mut sims, compare_symbol(name, item_name));
            proof {
                assert(sims@ =~= seq![symbol_similarity(name@, item_name@)]);
            }
            match args {
                None => {
                    proof {
                        after_nothing(sims@, ctx.bound());
                    }
                    Ok(sims)
                },
                Some(qs) => match item_args {
                    None => {
                        push_differents(&mut sims, qs.len());
                        Ok(sims)
                    },
                    Some(PathArguments::Parenthesized) => {
                        proof {
                            after_nothing(sims@, ctx.bound());
                        }
                        Ok(sims)
                    },
                    Some(PathArguments::AngleBracketed(is)) => {
                        match compare_arguments(qs, is, ctx, depth - 1) {
                            Ok(rest) => {
                                list_append(&mut sims, rest);
                                Ok(sims)
                            },
                            Err(e) => Err(e),
                        }
                    },
                },
            }
        },
        (Type::Primitive(a), ItemType::Primitive(b)) => Ok(compare_primitive(a, b)),
        _ => Ok(single(DiscreteSimilarity::Different)),
    }
}

/// Compares what a pointer or reference points to, and adds `Subequal` where
/// `partial` says that the two sides themselves agree only in part.
pub fn compare_referents<'a>(
    q: &'a Type,
    i: &'a ItemType,
    partial: bool,
    ctx: &mut Context<'a>,
    depth: usize,
) -> (result: Result<Similarities, CompareError>)
    ensures
        final(ctx).params == old(ctx).params,
        final(ctx).predicates == old(ctx).predicates,
        final(ctx).limit == old(ctx).limit,
        extends(final(ctx).bound(), old(ctx).bound()),
        agrees(
            result,
            final(ctx).bound(),
            if partial {
                then_one(
                    type_outcome(*q, *i, old(ctx).scope(), old(ctx).bound(), depth as nat),
                    Similarity::Discrete(DiscreteSimilarity::Subequal),
                )
            } else {
                type_outcome(*q, *i, old(ctx).scope(), old(ctx).bound(), depth as nat)
            },
        ),
    decreases depth, 1int,
{
    match compare_type_within(q, i, ctx, depth) {
        Ok(mut sims) => {
            if partial {
                list_push(&mut sims, Similarity::Discrete(DiscreteSimilarity::Subequal));
            }
            Ok(sims)
        },
        Err(e) => Err(e),
    }
}

/// Compares the elements of two tuples, pair by pair as far as both reach.
pub fn compare_elements<'a>(
    qs: &'a Vec<Option<Type>>,
    is: &'a Vec<ItemType>,
    ctx: &mut Context<'a>,
    depth: usize,
) -> (result: Result<Similarities, CompareError>)
    ensures
        final(ctx).params == old(ctx).params,
        final(ctx).predicates == old(ctx).predicates,
        final(ctx).limit == old(ctx).limit,
        extends(final(ctx).bound(), old(ctx).bound()),
        agrees(
            result,
            final(ctx).bound(),
            elements_outcome(qs@, is@, 0, old(ctx).scope(), old(ctx).bound(), depth as nat),
        ),
    decreases depth, 1int,
{
    let ghost scope = ctx.scope();
    let ghost goal = elements_outcome(qs@, is@, 0, scope, ctx.bound(), depth as nat);
    let ghost start = *ctx;
    let mut sims = list_new();
    let mut at: usize = 0;
    proof {
        nothing_before(goal);
    }
    while at < qs.len() && at < is.len()
        invariant
            start == *old(ctx),
            ctx.params == start.params,
            ctx.predicates == start.predicates,
            ctx.limit == start.limit,
            extends(ctx.bound(), start.bound()),
            scope == start.scope(),
            goal == elements_outcome(qs@, is@, 0, scope, start.bound(), depth as nat),
            goal == after(
                sims@,
                elements_outcome(qs@, is@, at as int, scope, ctx.bound(), depth as nat),
            ),
        decreases qs.len() - at,
    {
        if let Some(q) = &qs[at] {
            match compare_type_within(q, &is[at], ctx, depth) {
                Ok(step) => {
                    proof {
                        after_twice(
                            sims@,
                            step@,
                            elements_outcome(
                                qs@,
                                is@,
                                at + 1,
                                scope,
                                ctx.bound(),
                                depth as nat,
                            ),
                        );
                    }
                    list_append(&mut sims, step);
                },
                Err(e) => {
                    return Err(e);
                },
            }
        }
        at += 1;
    }
    proof {
        after_nothing(sims@, ctx.bound());
    }
    Ok(sims)
}

/// Compares the generic arguments of two paths, pair by pair as far as both
/// reach.
pub fn compare_arguments<'a>(
    qs: &'a Vec<Option<Type>>,
    is: &'a Vec<Option<ItemType>>,
    ctx: &mut Context<'a>,
    depth: usize,
) -> (result: Result<Similarities, CompareError>)
    ensures
        final(ctx).params == old(ctx).params,
        final(ctx).predicates == old(ctx).predicates,
        final(ctx).limit == old(ctx).limit,
        extends(final(ctx).bound(), old(ctx).bound()),
        agrees(
            result,
            final(ctx).bound(),
            arguments_outcome(qs@, is@, 0, old(ctx).scope(), old(ctx).bound(), depth as nat),
        ),
    decreases depth, 1int,
{
    let ghost scope = ctx.scope();
    let ghost goal = arguments_outcome(qs@, is@, 0, scope, ctx.bound(), depth as nat);
    let ghost start = *ctx;
    let mut sims = list_new();
    let mut at: usize = 0;
    proof {
        nothing_before(goal);
    }
    while at < qs.len() && at < is.len()
        invariant
            start == *old(ctx),
            ctx.params == start.params,
            ctx.predicates == start.predicates,
            ctx.limit == start.limit,
            extends(ctx.bound(), start.bound()),
            scope == start.scope(),
            goal == arguments_outcome(qs@, is@, 0, scope, start.bound(), depth as nat),
            goal == after(
                sims@,
                arguments_outcome(qs@, is@, at as int, scope, ctx.bound(), depth as nat),
            ),
        decreases qs.len() - at,
    {
        if let Some(q) = &qs[at] {
            match &is[at] {
                Some(i) => match compare_type_within(q, i, ctx, depth) {
                    Ok(step) => {
                        proof {
                            after_twice(
                                sims@,
                                step@,
                                arguments_outcome(
                                    qs@,
                                    is@,
                                    at + 1,
                                    scope,
                                    ctx.bound(),
                                    depth as nat,
                                ),
                            );
                        }
                        list_append(&mut sims, step);
                    },
                    Err(e) => {
                        return Err(e);
                    },
                },
                None => {
                    proof {
                        after_twice(
                            sims@,
                            verdict(DiscreteSimilarity::Different),
                            arguments_outcome(
                                qs@,
                                is@,
                                at + 1,
                                scope,
                                ctx.bound(),
                                depth as nat,
                            ),
                        );
                        assert(sims@.push(Similarity::Discrete(DiscreteSimilarity::Different))
                            =~= sims@ + verdict(DiscreteSimilarity::Different));
                    }
                    list_push(&mut sims, Similarity::Discrete(DiscreteSimilarity::Different));
                },
            }
        }
        at += 1;
    }
    proof {
        after_nothing(sims@, ctx.bound());
    }
    Ok(sims)
}

/// Compares a type pattern with a candidate type, as deep as the context
/// allows.
pub fn compare_type<'a>(q: &'a Type, i: &'a ItemType, ctx: &mut Context<'a>) -> (result: Result<
    Similarities,
    CompareError,
>)
    ensures
        final(ctx).params == old(ctx).params,
        final(ctx).predicates == old(ctx).predicates,
        final(ctx).limit == old(ctx).limit,
        extends(final(ctx).bound(), old(ctx).bound()),
        agrees(
            result,
            final(ctx).bound(),
            type_outcome(*q, *i, old(ctx).scope(), old(ctx).bound(), old(ctx).limit as nat),
        ),
{
    let depth: usize = ctx.limit;
    compare_type_within(q, i, ctx, depth)
}

/// Compares a return-type pattern with a candidate's return type.
pub fn compare_return<'a>(
    output: &'a FnRetTy,
    ret: &'a Option<ItemType>,
    ctx: &mut Context<'a>,
) -> (result: Result<Similarities, CompareError>)
    ensures
        final(ctx).params == old(ctx).params,
        final(ctx).predicates == old(ctx).predicates,
        final(ctx).limit == old(ctx).limit,
        extends(final(ctx).bound(), old(ctx).bound()),
        agrees(
            result,
            final(ctx).bound(),
            return_outcome(*output, *ret, old(ctx).scope(), old(ctx).bound(), old(ctx).limit as nat),
        ),
{
    match (output, ret) {
        (FnRetTy::Return(q), Some(i)) => compare_type(q, i, ctx),
        (FnRetTy::DefaultReturn, None) => Ok(single(DiscreteSimilarity::Equivalent)),
        _ => Ok(single(DiscreteSimilarity::Different)),
    }
}

/// Compares an argument pattern with a parameter.
pub fn compare_argument<'a>(
    arg: &'a Argument,
    param: &'a Parameter,
    ctx: &mut Context<'a>,
) -> (result: Result<Similarities, CompareError>)
    ensures
        final(ctx).params == old(ctx).params,
        final(ctx).predicates == old(ctx).predicates,
        final(ctx).limit == old(ctx).limit,
        extends(final(ctx).bound(), old(ctx).bound()),
        agrees(
            result,
            final(ctx).bound(),
            argument_outcome(*arg, *param, old(ctx).scope(), old(ctx).bound(), old(ctx).limit as nat),
        ),
{
    let mut sims = list_new();
    if let Some(name) = &arg.name {
        list_push(&mut sims, compare_symbol(name, &param.name));
    }
    proof {
        assert(sims@ =~= name_sims(arg.name, param.name));
    }
    match &arg.ty {
        Some(q) => match compare_type(q, &param.ty, ctx) {
            Ok(rest) => {
                list_append(&mut sims, rest);
                Ok(sims)
            },
            Err(e) => Err(e),
        },
        None => {
            proof {
                after_nothing(sims@, ctx.bound());
            }
            Ok(sims)
        },
    }
}

/// Compares argument patterns with parameters, pair by pair as far as both
/// reach.
pub fn compare_inputs<'a>(
    args: &'a Vec<Argument>,
    params: &'a Vec<Parameter>,
    ctx: &mut Context<'a>,
) -> (result: Result<Similarities, CompareError>)
    ensures
        final(ctx).params == old(ctx).params,
        final(ctx).predicates == old(ctx).predicates,
        final(ctx).limit == old(ctx).limit,
        extends(final(ctx).bound(), old(ctx).bound()),
        agrees(
            result,
            final(ctx).bound(),
            inputs_outcome(args@, params@, 0, old(ctx).scope(), old(ctx).bound(), old(ctx).limit as nat),
        ),
{
    let ghost scope = ctx.scope();
    let ghost depth = ctx.limit as nat;
    let ghost goal = inputs_outcome(args@, params@, 0, scope, ctx.bound(), depth);
    let ghost start = *ctx;
    let mut sims = list_new();
    let mut at: usize = 0;
    proof {
        nothing_before(goal);
    }
    while at < args.len() && at < params.len()
        invariant
            start == *old(ctx),
            ctx.params == start.params,
            ctx.predicates == start.predicates,
            ctx.limit == start.limit,
            extends(ctx.bound(), start.bound()),
            scope == start.scope(),
            depth == start.limit as nat,
            goal == inputs_outcome(args@, params@, 0, scope, start.bound(), depth),
            goal == after(sims@, inputs_outcome(args@, params@, at as int, scope, ctx.bound(), depth)),
        decreases args.len() - at,
    {
        match compare_argument(&args[at], &params[at], ctx) {
            Ok(step) => {
                proof {
                    after_twice(
                        sims@,
                        step@,
                        inputs_outcome(args@, params@, at + 1, scope, ctx.bound(), depth),
                    );
                }
                list_append(&mut sims, step);
            },
            Err(e) => {
                return Err(e);
            },
        }
        at += 1;
    }
    proof {
        after_nothing(sims@, ctx.bound());
    }
    Ok(sims)
}

/// Compares a declaration pattern with a signature.
pub fn compare_decl<'a>(decl: &'a FnDecl, sig: &'a Signature, ctx: &mut Context<'a>) -> (result:
    Result<Similarities, CompareError>)
    ensures
        final(ctx).params == old(ctx).params,
        final(ctx).predicates == old(ctx).predicates,
        final(ctx).limit == old(ctx).limit,
        extends(final(ctx).bound(), old(ctx).bound()),
        agrees(
            result,
            final(ctx).bound(),
            decl_outcome(*decl, *sig, old(ctx).scope(), old(ctx).bound(), old(ctx).limit as nat),
        ),
{
    let mut sims = list_new();
    if let Some(args) = &decl.inputs {
        match compare_inputs(args, &sig.inputs, ctx) {
            Ok(found) => {
                sims = found;
            },
            Err(e) => {
                return Err(e);
            },
        }
        if args.len() != sig.inputs.len() {
            push_differents(&mut sims, distance(args.len(), sig.inputs.len()));
        } else if args.len() == 0 {
            list_push(&mut sims, Similarity::Discrete(DiscreteSimilarity::Equivalent));
        }
        proof {
            let first = inputs_outcome(
                args@,
                sig.inputs@,
                0,
                old(ctx).scope(),
                old(ctx).bound(),
                old(ctx).limit as nat,
            );
            assert(sims@ =~= first->sims + arity_sims(args@.len(), sig.inputs@.len()));
        }
    }
    assert(all_inputs_outcome(
        decl.inputs,
        sig.inputs@,
        old(ctx).scope(),
        old(ctx).bound(),
        old(ctx).limit as nat,
    ) == (Outcome::Done { sims: sims@, bound: ctx.bound() }));
    match &decl.output {
        Some(output) => match compare_return(output, &sig.output, ctx) {
            Ok(rest) => {
                list_append(&mut sims, rest);
                Ok(sims)
            },
            Err(e) => Err(e),
        },
        None => Ok(sims),
    }
}

/// Compares a function pattern with a callable, after bringing the
/// callable's type parameters and predicates into scope.
pub fn compare_function<'a>(
    function: &'a Function,
    callable: &'a Callable,
    ctx: &mut Context<'a>,
) -> (result: Result<Similarities, CompareError>)
    ensures
        final(ctx).scope() == old(ctx).scope() + callable.generics.where_predicates@,
        final(ctx).names() == old(ctx).names() + names_of(callable.generics),
        final(ctx).limit == old(ctx).limit,
        extends(final(ctx).bound(), old(ctx).bound()),
        agrees(
            result,
            final(ctx).bound(),
            function_outcome(
                *function,
                *callable,
                old(ctx).scope(),
                old(ctx).bound(),
                old(ctx).limit as nat,
            ),
        ),
{
    ctx.enter(&callable.generics);
    compare_decl(&function.decl, &callable.decl, ctx)
}

/// Compares a kind of query with a kind of candidate.
pub fn compare_kind<'a>(kind: &'a QueryKind, inner: &'a ItemKind, ctx: &mut Context<'a>) -> (result:
    Result<Similarities, CompareError>)
    ensures
        final(ctx).scope() == scope_after(*inner, old(ctx).scope()),
        final(ctx).names() == names_after(*inner, old(ctx).names()),
        final(ctx).limit == old(ctx).limit,
        extends(final(ctx).bound(), old(ctx).bound()),
        agrees(
            result,
            final(ctx).bound(),
            kind_outcome(*kind, *inner, old(ctx).scope(), old(ctx).bound(), old(ctx).limit as nat),
        ),
{
    match (kind, inner) {
        (QueryKind::FunctionQuery(f), ItemKind::Function(c)) => compare_function(f, c, ctx),
        (QueryKind::FunctionQuery(f), ItemKind::Method(c)) => compare_function(f, c, ctx),
        (QueryKind::FunctionQuery(_), ItemKind::Other) => Ok(single(DiscreteSimilarity::Different)),
    }
}

/// Compares a query with a candidate in a given context.
pub fn compare_item<'a>(query: &'a Query, item: &'a Item, ctx: &mut Context<'a>) -> (result: Result<
    Similarities,
    CompareError,
>)
    ensures
        final(ctx).scope() == (if query.kind is Some {
            scope_after(item.inner, old(ctx).scope())
        } else {
            old(ctx).scope()
        }),
        final(ctx).names() == (if query.kind is Some {
            names_after(item.inner, old(ctx).names())
        } else {
            old(ctx).names()
        }),
        final(ctx).limit == old(ctx).limit,
        extends(final(ctx).bound(), old(ctx).bound()),
        agrees(
            result,
            final(ctx).bound(),
            item_outcome(*query, *item, old(ctx).scope(), old(ctx).bound(), old(ctx).limit as nat),
        ),
{
    let mut sims = list_new();
    match (&query.name, &item.name) {
        (Some(pattern), Some(name)) => {
            list_push(&mut sims, compare_symbol(pattern, name));
        },
        (Some(_), None) => {
            list_push(&mut sims, Similarity::Discrete(DiscreteSimilarity::Different));
        },
        _ => {},
    }
    proof {
        assert(sims@ =~= item_name_sims(query.name, item.name));
    }
    match &query.kind {
        Some(kind) => match compare_kind(kind, &item.inner, ctx) {
            Ok(rest) => {
                list_append(&mut sims, rest);
                Ok(sims)
            },
            Err(e) => Err(e),
        },
        None => {
            proof {
                after_nothing(sims@, ctx.bound());
            }
            Ok(sims)
        },
    }
}

/// The judgments on a candidate under a query, from a fresh context, so
/// that no binding of another candidate is seen.
pub open spec fn judged(query: Query, item: Item) -> Outcome {
    item_outcome(query, item, Seq::empty(), Seq::empty(), DEPTH_LIMIT as nat)
}

/// Compares a query with a candidate. A failure leaves this candidate out;
/// it says nothing of any other.
pub fn compare(query: &Query, item: &Item) -> (result: Result<Similarities, CompareError>)
    ensures
        match judged(*query, *item) {
            Outcome::Done { sims, bound } => result is Ok && result->Ok_0@ == sims,
            Outcome::Failed(e) => result is Err && result->Err_0 == e,
        },
{
    let mut ctx = Context::new();
    compare_item(query, item, &mut ctx)
}

/// Comparison of a pattern with what it is a pattern of. The judgments come
/// in order; the context carries the bindings from one comparison to the
/// next within one candidate.
pub trait Compare<'a, Rhs> {
    /// The outcome that `compare` computes.
    spec fn outcome(
        &self,
        rhs: &Rhs,
        scope: Seq<WherePredicate>,
        bound: Bound,
        depth: nat,
    ) -> Outcome;

    /// The predicates in scope after `compare`.
    spec fn scope_then(&self, rhs: &Rhs, scope: Seq<WherePredicate>) -> Seq<WherePredicate>;

    /// The type parameters in scope after `compare`.
    spec fn names_then(&self, rhs: &Rhs, names: Seq<Seq<char>>) -> Seq<Seq<char>>;

    fn compare(&'a self, rhs: &'a Rhs, ctx: &mut Context<'a>) -> (result: Result<
        Similarities,
        CompareError,
    >)
        ensures
            final(ctx).scope() == self.scope_then(rhs, old(ctx).scope()),
            final(ctx).names() == self.names_then(rhs, old(ctx).names()),
            final(ctx).limit == old(ctx).limit,
            extends(final(ctx).bound(), old(ctx).bound()),
            agrees(
                result,
                final(ctx).bound(),
                self.outcome(rhs, old(ctx).scope(), old(ctx).bound(), old(ctx).limit as nat),
            ),
    ;
}

/// A query against a candidate.
impl<'a> Compare<'a, Item> for Query {
    open spec fn scope_then(&self, rhs: &Item, scope: Seq<WherePredicate>) -> Seq<WherePredicate> {
        if self.kind is Some {
            scope_after(rhs.inner, scope)
        } else {
            scope
        }
    }

    open spec fn names_then(&self, rhs: &Item, names: Seq<Seq<char>>) -> Seq<Seq<char>> {
        if self.kind is Some {
            names_after(rhs.inner, names)
        } else {
            names
        }
    }

    open spec fn outcome(
        &self,
        rhs: &Item,
        scope: Seq<WherePredicate>,
        bound: Bound,
        depth: nat,
    ) -> Outcome {
        item_outcome(*self, *rhs, scope, bound, depth)
    }

    fn compare(&'a self, rhs: &'a Item, ctx: &mut Context<'a>) -> (result: Result<
        Similarities,
        CompareError,
    >) {
        compare_item(self, rhs, ctx)
    }
}

/// A name pattern against a name: one graded judgment.
impl<'a> Compare<'a, String> for String {
    open spec fn scope_then(&self, rhs: &String, scope: Seq<WherePredicate>) -> Seq<WherePredicate> {
        scope
    }

    open spec fn names_then(&self, rhs: &String, names: Seq<Seq<char>>) -> Seq<Seq<char>> {
        names
    }

    open spec fn outcome(
        &self,
        rhs: &String,
        scope: Seq<WherePredicate>,
        bound: Bound,
        depth: nat,
    ) -> Outcome {
        Outcome::Done { sims: seq![symbol_similarity(self@, rhs@)], bound }
    }

    fn compare(&'a self, rhs: &'a String, ctx: &mut Context<'a>) -> (result: Result<
        Similarities,
        CompareError,
    >) {
        let mut sims = list_new();
        list_push(&mut sims, compare_symbol(self, rhs));
        proof {
            assert(sims@ =~= seq![symbol_similarity(self@, rhs@)]);
        }
        Ok(sims)
    }
}

/// The kind of a query against the kind of a candidate.
impl<'a> Compare<'a, ItemKind> for QueryKind {
    open spec fn scope_then(&self, rhs: &ItemKind, scope: Seq<WherePredicate>) -> Seq<WherePredicate> {
        scope_after(*rhs, scope)
    }

    open spec fn names_then(&self, rhs: &ItemKind, names: Seq<Seq<char>>) -> Seq<Seq<char>> {
        names_after(*rhs, names)
    }

    open spec fn outcome(
        &self,
        rhs: &ItemKind,
        scope: Seq<WherePredicate>,
        bound: Bound,
        depth: nat,
    ) -> Outcome {
        kind_outcome(*self, *rhs, scope, bound, depth)
    }

    fn compare(&'a self, rhs: &'a ItemKind, ctx: &mut Context<'a>) -> (result: Result<
        Similarities,
        CompareError,
    >) {
        compare_kind(self, rhs, ctx)
    }
}

/// A function pattern against a callable.
impl<'a> Compare<'a, Callable> for Function {
    open spec fn scope_then(&self, rhs: &Callable, scope: Seq<WherePredicate>) -> Seq<WherePredicate> {
        scope + rhs.generics.where_predicates@
    }

    open spec fn names_then(&self, rhs: &Callable, names: Seq<Seq<char>>) -> Seq<Seq<char>> {
        names + names_of(rhs.generics)
    }

    open spec fn outcome(
        &self,
        rhs: &Callable,
        scope: Seq<WherePredicate>,
        bound: Bound,
        depth: nat,
    ) -> Outcome {
        function_outcome(*self, *rhs, scope, bound, depth)
    }

    fn compare(&'a self, rhs: &'a Callable, ctx: &mut Context<'a>) -> (result: Result<
        Similarities,
        CompareError,
    >) {
        compare_function(self, rhs, ctx)
    }
}

/// A declaration pattern against a signature.
impl<'a> Compare<'a, Signature> for FnDecl {
    open spec fn scope_then(&self, rhs: &Signature, scope: Seq<WherePredicate>) -> Seq<WherePredicate> {
        scope
    }

    open spec fn names_then(&self, rhs: &Signature, names: Seq<Seq<char>>) -> Seq<Seq<char>> {
        names
    }

    open spec fn outcome(
        &self,
        rhs: &Signature,
        scope: Seq<WherePredicate>,
        bound: Bound,
        depth: nat,
    ) -> Outcome {
        decl_outcome(*self, *rhs, scope, bound, depth)
    }

    fn compare(&'a self, rhs: &'a Signature, ctx: &mut Context<'a>) -> (result: Result<
        Similarities,
        CompareError,
    >) {
        compare_decl(self, rhs, ctx)
    }
}

/// An argument pattern against a parameter.
impl<'a> Compare<'a, Parameter> for Argument {
    open spec fn scope_then(&self, rhs: &Parameter, scope: Seq<WherePredicate>) -> Seq<WherePredicate> {
        scope
    }

    open spec fn names_then(&self, rhs: &Parameter, names: Seq<Seq<char>>) -> Seq<Seq<char>> {
        names
    }

    open spec fn outcome(
        &self,
        rhs: &Parameter,
        scope: Seq<WherePredicate>,
        bound: Bound,
        depth: nat,
    ) -> Outcome {
        argument_outcome(*self, *rhs, scope, bound, depth)
    }

    fn compare(&'a self, rhs: &'a Parameter, ctx: &mut Context<'a>) -> (result: Result<
        Similarities,
        CompareError,
    >) {
        compare_argument(self, rhs, ctx)
    }
}

/// A return-type pattern against a return type.
impl<'a> Compare<'a, Option<ItemType>> for FnRetTy {
    open spec fn scope_then(&self, rhs: &Option<ItemType>, scope: Seq<WherePredicate>) -> Seq<WherePredicate> {
        scope
    }

    open spec fn names_then(&self, rhs: &Option<ItemType>, names: Seq<Seq<char>>) -> Seq<Seq<char>> {
        names
    }

    open spec fn outcome(
        &self,
        rhs: &Option<ItemType>,
        scope: Seq<WherePredicate>,
        bound: Bound,
        depth: nat,
    ) -> Outcome {
        return_outcome(*self, *rhs, scope, bound, depth)
    }

    fn compare(&'a self, rhs: &'a Option<ItemType>, ctx: &mut Context<'a>) -> (result: Result<
        Similarities,
        CompareError,
    >) {
        compare_return(self, rhs, ctx)
    }
}

/// A type pattern against a candidate type.
impl<'a> Compare<'a, ItemType> for Type {
    open spec fn scope_then(&self, rhs: &ItemType, scope: Seq<WherePredicate>) -> Seq<WherePredicate> {
        scope
    }

    open spec fn names_then(&self, rhs: &ItemType, names: Seq<Seq<char>>) -> Seq<Seq<char>> {
        names
    }

    open spec fn outcome(
        &self,
        rhs: &ItemType,
        scope: Seq<WherePredicate>,
        bound: Bound,
        depth: nat,
    ) -> Outcome {
        type_outcome(*self, *rhs, scope, bound, depth)
    }

    fn compare(&'a self, rhs: &'a ItemType, ctx: &mut Context<'a>) -> (result: Result<
        Similarities,
        CompareError,
    >) {
        compare_type(self, rhs, ctx)
    }
}

} // verus!
