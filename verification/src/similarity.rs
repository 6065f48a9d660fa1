//! One judgment, an ordered list of judgments, and the cost of each.

use smallvec::SmallVec;
use vstd::prelude::*;

verus! {

/// A three-level verdict on how alike two things are.
#[derive(Debug, Clone, Copy, PartialEq, Eq, PartialOrd, Ord, Hash, Structural)]
pub enum DiscreteSimilarity {
    /// The two are the same.
    Equivalent,
    /// The two agree in part, such as a yet unbound type variable and `i32`.
    Subequal,
    /// The two have nothing in common.
    Different,
}

/// An exact fraction `numerator / denominator`.
#[derive(Debug, Clone, Copy, PartialEq, Eq, Hash, Structural)]
pub struct Ratio {
    pub numerator: usize,
    pub denominator: usize,
}

/// One judgment: a discrete verdict, or a graded one between 0 (best) and 1.
#[derive(Debug, Clone, Copy, PartialEq, Eq, Hash, Structural)]
pub enum Similarity {
    Discrete(DiscreteSimilarity),
    Continuous(Ratio),
}

/// The ordered judgments of one comparison, held in the smallvec crate's
/// `SmallVec`, which the verifier does not look into.
#[verifier::external_body]
#[derive(Debug)]
pub struct Similarities(SmallVec<[Similarity; 10]>);

/// The judgments that a list holds, first to last.
pub uninterp spec fn judgments(list: Similarities) -> Seq<Similarity>;

/// `SmallVec::new`: a list that holds nothing.
#[verifier::external_body]
pub(crate) fn list_new() -> (list: Similarities)
    ensures
        judgments(list) == Seq::<Similarity>::empty(),
{
    Similarities(SmallVec::new())
}

/// `SmallVec::push`: the list keeps what it held and gains `sim` at its end.
#[verifier::external_body]
pub(crate) fn list_push(list: &mut Similarities, sim: Similarity)
    ensures
        judgments(*final(list)) == judgments(*old(list)).push(sim),
{
    list.0.push(sim)
}

/// `SmallVec::append`: the list keeps what it held, followed by all of `tail`
/// in `tail`'s order.
#[verifier::external_body]
pub(crate) fn list_append(list: &mut Similarities, tail: Similarities)
    ensures
        judgments(*final(list)) == judgments(*old(list)) + judgments(tail),
{
    let mut tail = tail;
    list.0.append(&mut tail.0)
}

/// `SmallVec::len`: how many judgments the list holds.
#[verifier::external_body]
pub(crate) fn list_len(list: &Similarities) -> (n: usize)
    ensures
        n == judgments(*list).len(),
{
    list.0.len()
}

/// `SmallVec`'s `Index<usize>`: the judgment at position `at`, which must exist.
#[verifier::external_body]
pub(crate) fn list_get(list: &Similarities, at: usize) -> (sim: Similarity)
    requires
        at < judgments(*list).len(),
    ensures
        sim == judgments(*list)[at as int],
{
    list.0[at]
}

/// The cost that a judgment stands for, as an exact fraction: 0 for
/// `Equivalent`, a quarter for `Subequal`, 1 for `Different`, and the
/// fraction itself for a graded judgment.
pub open spec fn cost_of(sim: Similarity) -> Ratio {
    match sim {
        Similarity::Discrete(DiscreteSimilarity::Equivalent) => Ratio { numerator: 0, denominator: 1 },
        Similarity::Discrete(DiscreteSimilarity::Subequal) => Ratio { numerator: 1, denominator: 4 },
        Similarity::Discrete(DiscreteSimilarity::Different) => Ratio { numerator: 1, denominator: 1 },
        Similarity::Continuous(ratio) => ratio,
    }
}

impl Similarity {
    /// The cost of this judgment.
    pub fn cost(&self) -> (ratio: Ratio)
        ensures
            ratio == cost_of(*self),
    {
        match self {
            Similarity::Discrete(DiscreteSimilarity::Equivalent) => Ratio { numerator: 0, denominator: 1 },
            Similarity::Discrete(DiscreteSimilarity::Subequal) => Ratio { numerator: 1, denominator: 4 },
            Similarity::Discrete(DiscreteSimilarity::Different) => Ratio { numerator: 1, denominator: 1 },
            Similarity::Continuous(ratio) => *ratio,
        }
    }
}

impl View for Similarities {
    type V = Seq<Similarity>;

    open spec fn view(&self) -> Seq<Similarity> {
        judgments(*self)
    }
}

impl Similarities {
    /// A list that holds nothing.
    pub fn new() -> (list: Similarities)
        ensures
            list@ == Seq::<Similarity>::empty(),
    {
        list_new()
    }

    /// A list of the given judgments, in their order.
    pub fn from_vec(sims: &Vec<Similarity>) -> (list: Similarities)
        ensures
            list@ == sims@,
    {
        let mut list = list_new();
        let mut at: usize = 0;
        while at < sims.len()
            invariant
                at <= sims.len(),
                list@ == sims@.take(at as int),
            decreases sims.len() - at,
        {
            list_push(&mut list, sims[at]);
            proof {
                assert(sims@.take(at + 1) == sims@.take(at as int).push(sims@[at as int]));
            }
            at += 1;
        }
        proof {
            assert(sims@.take(sims.len() as int) == sims@);
        }
        list
    }

    /// The judgments of the list, in their order.
    pub fn to_vec(&self) -> (sims: Vec<Similarity>)
        ensures
            sims@ == self@,
    {
        let n: usize = list_len(self);
        let mut sims: Vec<Similarity> = Vec::new();
        let mut at: usize = 0;
        while at < n
            invariant
                n == self@.len(),
                at <= n,
                sims@ == self@.take(at as int),
            decreases n - at,
        {
            sims.push(list_get(self, at));
            proof {
                assert(self@.take(at + 1) == self@.take(at as int).push(self@[at as int]));
            }
            at += 1;
        }
        proof {
            assert(self@.take(n as int) == self@);
        }
        sims
    }

    /// A second list of the same judgments.
    pub fn duplicate(&self) -> (copy: Similarities)
        ensures
            copy@ == self@,
    {
        let sims = self.to_vec();
        Similarities::from_vec(&sims)
    }

    /// Tells whether two lists hold the same judgments in the same order.
    pub fn equals(&self, other: &Similarities) -> (same: bool)
        ensures
            same == (self@ == other@),
    {
        let n: usize = list_len(self);
        if n != list_len(other) {
            return false;
        }
        let mut at: usize = 0;
        while at < n
            invariant
                n == self@.len(),
                n == other@.len(),
                at <= n,
                forall|k: int| 0 <= k < at ==> self@[k] == other@[k],
            decreases n - at,
        {
            if list_get(self, at) != list_get(other, at) {
                return false;
            }
            at += 1;
        }
        proof {
            assert(self@ =~= other@);
        }
        true
    }

    /// How many judgments the list holds.
    pub fn len(&self) -> (n: usize)
        ensures
            n == self@.len(),
    {
        list_len(self)
    }

    /// The terms whose arithmetic mean is the score of the list: the cost of
    /// each judgment, in order. A list without judgments scores worst: its
    /// only term is 1.
    pub fn score_terms(&self) -> (terms: Vec<Ratio>)
        ensures
            terms@ == terms_of(self@),
            terms@.len() > 0,
    {
        let n: usize = list_len(self);
        let mut terms: Vec<Ratio> = Vec::new();
        if n == 0 {
            terms.push(Ratio { numerator: 1, denominator: 1 });
            proof {
                assert(terms@ =~= seq![Ratio { numerator: 1, denominator: 1 }]);
            }
            return terms;
        }
        let mut at: usize = 0;
        while at < n
            invariant
                n == self@.len(),
                at <= n,
                terms@ == self@.take(at as int).map_values(|sim: Similarity| cost_of(sim)),
            decreases n - at,
        {
            let sim = list_get(self, at);
            terms.push(sim.cost());
            proof {
                assert(self@.take(at + 1) == self@.take(at as int).push(self@[at as int]));
                assert(self@.take(at + 1).map_values(|sim: Similarity| cost_of(sim))
                    == self@.take(at as int).map_values(|sim: Similarity| cost_of(sim)).push(
                    cost_of(self@[at as int]),
                ));
            }
            at += 1;
        }
        proof {
            assert(self@.take(n as int) == self@);
        }
        terms
    }
}

/// The terms whose mean is the score of a list of judgments.
pub open spec fn terms_of(sims: Seq<Similarity>) -> Seq<Ratio> {
    if sims.len() == 0 {
        seq![Ratio { numerator: 1, denominator: 1 }]
    } else {
        sims.map_values(|sim: Similarity| cost_of(sim))
    }
}

/// Where every judgment is the same discrete verdict, every term of the
/// score is that verdict's cost: 0 throughout for `Equivalent`, 1 throughout
/// for `Different`. An empty list has the single term 1.
pub proof fn uniform_terms(sims: Seq<Similarity>, d: DiscreteSimilarity)
    requires
        forall|k: int| 0 <= k < sims.len() ==> sims[k] == Similarity::Discrete(d),
    ensures
        sims.len() > 0 ==> terms_of(sims).len() == sims.len(),
        sims.len() > 0 ==> forall|k: int|
            0 <= k < sims.len() ==> #[trigger] terms_of(sims)[k] == cost_of(Similarity::Discrete(d)),
        cost_of(Similarity::Discrete(DiscreteSimilarity::Equivalent)) == (Ratio {
            numerator: 0,
            denominator: 1,
        }),
        cost_of(Similarity::Discrete(DiscreteSimilarity::Different)) == (Ratio {
            numerator: 1,
            denominator: 1,
        }),
        sims.len() == 0 ==> terms_of(sims) == seq![Ratio { numerator: 1, denominator: 1 }],
{
}

} // verus!
