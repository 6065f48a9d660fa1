//! The state of one comparison: the predicates in scope and the type
//! variables bound so far.

use crate::item::{Generics, ItemType, WherePredicate};
use crate::query::Type;
use vstd::prelude::*;

verus! {

/// A type variable of the candidate and the pattern it was first met with.
#[derive(Debug)]
pub struct Binding<'a> {
    pub name: &'a String,
    pub pattern: &'a Type,
}

/// The state that one comparison of a query with a candidate carries along.
/// Each comparison starts from a fresh one.
#[derive(Debug)]
pub struct Context<'a> {
    /// The type parameters in scope.
    pub params: Vec<&'a String>,
    /// The `where` predicates in scope.
    pub predicates: Vec<&'a WherePredicate>,
    /// The type variables bound so far, oldest first.
    pub bindings: Vec<Binding<'a>>,
    /// How many types deep a comparison may descend.
    pub limit: usize,
}

/// How deep a comparison descends by default.
pub const DEPTH_LIMIT: usize = 64;

/// The bindings as names and patterns.
pub type Bound = Seq<(Seq<char>, Type)>;

/// The name that stands for the enclosing type.
pub open spec fn self_marker() -> Seq<char> {
    "Self"@
}

/// Whether a predicate says what `Self` is.
pub open spec fn binds_self(predicate: WherePredicate) -> bool {
    match predicate {
        WherePredicate::Equality { lhs, rhs } => match lhs {
            ItemType::Generic(name) => name@ == self_marker(),
            _ => false,
        },
        WherePredicate::Other => false,
    }
}

/// The type that the first predicate at or after `from` gives to `Self`.
pub open spec fn resolve_self(predicates: Seq<WherePredicate>, from: int) -> Option<ItemType>
    decreases predicates.len() - from,
{
    if from < 0 || from >= predicates.len() {
        None
    } else if binds_self(predicates[from]) {
        match predicates[from] {
            WherePredicate::Equality { lhs, rhs } => Some(rhs),
            WherePredicate::Other => None,
        }
    } else {
        resolve_self(predicates, from + 1)
    }
}

/// The pattern of the first binding at or after `from` that has this name.
pub open spec fn lookup(bound: Bound, name: Seq<char>, from: int) -> Option<Type>
    decreases bound.len() - from,
{
    if from < 0 || from >= bound.len() {
        None
    } else if bound[from].0 == name {
        Some(bound[from].1)
    } else {
        lookup(bound, name, from + 1)
    }
}

/// The names of the type parameters that a declaration brings.
pub open spec fn names_of(generics: Generics) -> Seq<Seq<char>> {
    generics.params@.map_values(|p: String| p@)
}

/// Whether `later` holds all of `earlier`, in place, and perhaps more
/// after it.
pub open spec fn extends(later: Bound, earlier: Bound) -> bool {
    earlier.len() <= later.len() && forall|k: int|
        0 <= k < earlier.len() ==> #[trigger] later[k] == earlier[k]
}

/// Tells whether a name is the marker for the enclosing type.
pub fn is_self_name(name: &String) -> (is_marker: bool)
    ensures
        is_marker == (name@ == self_marker()),
{
    let marker: String = "Self".to_owned();
    *name == marker
}

impl<'a> Context<'a> {
    /// The predicates in scope.
    pub open spec fn scope(&self) -> Seq<WherePredicate> {
        self.predicates@.map_values(|p: &WherePredicate| *p)
    }

    /// The names of the type parameters in scope.
    pub open spec fn names(&self) -> Seq<Seq<char>> {
        self.params@.map_values(|p: &String| p@)
    }

    /// The bindings made so far.
    pub open spec fn bound(&self) -> Bound {
        self.bindings@.map_values(|b: Binding| (b.name@, *b.pattern))
    }

    /// A context with nothing in scope and nothing bound.
    pub fn new() -> (ctx: Context<'a>)
        ensures
            ctx.scope() == Seq::<WherePredicate>::empty(),
            ctx.bound() == Seq::<(Seq<char>, Type)>::empty(),
            ctx.names() == Seq::<Seq<char>>::empty(),
            ctx.limit == DEPTH_LIMIT,
    {
        let ctx = Context {
            params: Vec::new(),
            predicates: Vec::new(),
            bindings: Vec::new(),
            limit: DEPTH_LIMIT,
        };
        proof {
            assert(ctx.scope() =~= Seq::<WherePredicate>::empty());
            assert(ctx.bound() =~= Seq::<(Seq<char>, Type)>::empty());
            assert(ctx.names() =~= Seq::<Seq<char>>::empty());
        }
        ctx
    }

    /// The type that the predicates in scope give to `Self`, if any does.
    pub fn find_self(&self) -> (target: Option<&'a ItemType>)
        ensures
            match resolve_self(self.scope(), 0) {
                Some(ty) => target is Some && *target->0 == ty,
                None => target is None,
            },
    {
        let mut at: usize = 0;
        while at < self.predicates.len()
            invariant
                at <= self.predicates.len(),
                resolve_self(self.scope(), 0) == resolve_self(self.scope(), at as int),
            decreases self.predicates.len() - at,
        {
            let predicate: &'a WherePredicate = self.predicates[at];
            assert(self.scope()[at as int] == *predicate);
            match predicate {
                WherePredicate::Equality { lhs, rhs } => {
                    if let ItemType::Generic(name) = lhs {
                        if is_self_name(name) {
                            return Some(rhs);
                        }
                    }
                },
                WherePredicate::Other => {},
            }
            at += 1;
        }
        None
    }

    /// The pattern that a type variable is bound to, if it is bound.
    pub fn find_binding(&self, name: &String) -> (pattern: Option<&'a Type>)
        ensures
            match lookup(self.bound(), name@, 0) {
                Some(ty) => pattern is Some && *pattern->0 == ty,
                None => pattern is None,
            },
    {
        let mut at: usize = 0;
        while at < self.bindings.len()
            invariant
                at <= self.bindings.len(),
                lookup(self.bound(), name@, 0) == lookup(self.bound(), name@, at as int),
            decreases self.bindings.len() - at,
        {
            let binding: &Binding<'a> = &self.bindings[at];
            assert(self.bound()[at as int] == (binding.name@, *binding.pattern));
            if *binding.name == *name {
                return Some(binding.pattern);
            }
            at += 1;
        }
        None
    }

    /// Brings the type parameters and predicates of a declaration into
    /// scope, after those already there.
    pub fn enter(&mut self, generics: &'a Generics)
        ensures
            final(self).scope() == old(self).scope() + generics.where_predicates@,
            final(self).names() == old(self).names() + names_of(*generics),
            final(self).bindings == old(self).bindings,
            final(self).limit == old(self).limit,
    {
        let mut at: usize = 0;
        proof {
            assert(self.names() =~= old(self).names() + names_of(*generics).take(0));
        }
        while at < generics.params.len()
            invariant
                at <= generics.params.len(),
                self.names() == old(self).names() + names_of(*generics).take(at as int),
                self.predicates == old(self).predicates,
                self.bindings == old(self).bindings,
                self.limit == old(self).limit,
            decreases generics.params.len() - at,
        {
            let ghost before = self.names();
            self.params.push(&generics.params[at]);
            proof {
                assert(self.names() =~= before.push(generics.params@[at as int]@));
                assert(self.names() =~= old(self).names() + names_of(*generics).take(at + 1));
            }
            at += 1;
        }
        proof {
            assert(names_of(*generics).take(generics.params@.len() as int) =~= names_of(
                *generics,
            ));
        }
        let mut at: usize = 0;
        proof {
            assert(self.scope() =~= old(self).scope() + generics.where_predicates@.take(0));
        }
        while at < generics.where_predicates.len()
            invariant
                at <= generics.where_predicates.len(),
                self.names() == old(self).names() + names_of(*generics),
                self.scope() == old(self).scope() + generics.where_predicates@.take(at as int),
                self.bindings == old(self).bindings,
                self.limit == old(self).limit,
            decreases generics.where_predicates.len() - at,
        {
            let ghost before = self.scope();
            self.predicates.push(&generics.where_predicates[at]);
            proof {
                assert(self.scope() =~= before.push(generics.where_predicates@[at as int]));
                assert(self.scope() =~= old(self).scope() + generics.where_predicates@.take(
                    at + 1,
                ));
            }
            at += 1;
        }
        proof {
            assert(generics.where_predicates@.take(generics.where_predicates@.len() as int)
                =~= generics.where_predicates@);
        }
    }

    /// Binds a type variable to a pattern, after the bindings made so far.
    pub fn bind(&mut self, name: &'a String, pattern: &'a Type)
        ensures
            final(self).bound() == old(self).bound().push((name@, *pattern)),
            final(self).scope() == old(self).scope(),
            final(self).params == old(self).params,
            final(self).predicates == old(self).predicates,
            final(self).limit == old(self).limit,
    {
        self.bindings.push(Binding { name, pattern });
        proof {
            assert(self.bound() =~= old(self).bound().push((name@, *pattern)));
        }
    }
}

} // verus!
