//! Fuzzy comparison of names by edit distance.

use crate::similarity::{Ratio, Similarity};
use vstd::prelude::*;
use vstd::utf8::encode_utf8;

verus! {

/// The Levenshtein distance between two strings, counted in characters.
pub uninterp spec fn edit_distance(a: Seq<char>, b: Seq<char>) -> nat;

/// The number of bytes that a string takes in UTF-8.
pub open spec fn utf8_len(s: Seq<char>) -> usize {
    encode_utf8(s).len() as usize
}

/// `levenshtein::levenshtein`: the edit distance of the two strings, which
/// is 0 where they are equal (the function returns early on `a == b`).
#[verifier::external_body]
pub(crate) fn levenshtein_distance(a: &String, b: &String) -> (distance: usize)
    ensures
        distance == edit_distance(a@, b@),
        a@ == b@ ==> distance == 0,
{
    levenshtein::levenshtein(a, b)
}

/// The graded judgment for a name pattern of `pattern_len` bytes and a name
/// of `name_len` bytes that are `distance` edits apart.
pub open spec fn graded(distance: nat, pattern_len: usize, name_len: usize) -> Similarity {
    Similarity::Continuous(
        Ratio {
            numerator: distance as usize,
            denominator: if pattern_len >= name_len { pattern_len } else { name_len },
        },
    )
}

/// The judgment on a name pattern against a name: their edit distance over
/// the longer of the two lengths.
pub open spec fn symbol_similarity(pattern: Seq<char>, name: Seq<char>) -> Similarity {
    graded(edit_distance(pattern, name), utf8_len(pattern), utf8_len(name))
}

/// Builds the graded judgment from a distance and the two lengths.
pub fn grade(distance: usize, pattern_len: usize, name_len: usize) -> (sim: Similarity)
    ensures
        sim == graded(distance as nat, pattern_len, name_len),
{
    let longer: usize = if pattern_len >= name_len { pattern_len } else { name_len };
    Similarity::Continuous(Ratio { numerator: distance, denominator: longer })
}

/// Compares a name pattern with a name. Equal names are zero edits apart.
pub fn compare_symbol(pattern: &String, name: &String) -> (sim: Similarity)
    ensures
        sim == symbol_similarity(pattern@, name@),
        pattern@ == name@ ==> sim == Similarity::Continuous(
            Ratio { numerator: 0, denominator: utf8_len(name@) },
        ),
{
    let distance: usize = levenshtein_distance(pattern, name);
    grade(distance, pattern.as_str().len(), name.as_str().len())
}

} // verus!
