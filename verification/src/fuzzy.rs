//! Fuzzy text comparison by Levenshtein edit distance.
//!
//! The distance itself is computed by the `rapidfuzz` crate; everything
//! built on top of it (thresholds, normalisation) is verified here. The
//! normalised comparison against the 3/10 budget is done in exact integer
//! arithmetic: `distance / max(len) < 3/10` holds exactly when
//! `10 * distance < 3 * max(len)`.

use vstd::prelude::*;

verus! {

/// The Levenshtein edit distance between two character sequences: a pure
/// function of its arguments, left uninterpreted; [`levenshtein`] computes
/// it.
pub uninterp spec fn lev_distance(a: Seq<char>, b: Seq<char>) -> nat;

/// Relies on `rapidfuzz::distance::levenshtein::distance` with its default
/// uniform weights: the minimum number of character insertions, deletions
/// and substitutions turning one sequence into the other. That minimum is
/// zero for equal sequences, and never exceeds the longer length (rapidfuzz
/// documents the normalised distance `distance / max(len1, len2)` as lying
/// in [0, 1]).
#[verifier::external_body]
pub fn levenshtein(a: &str, b: &str) -> (r: usize)
    ensures
        r as nat == lev_distance(a@, b@),
        a@ == b@ ==> r == 0,
        r <= if a@.len() >= b@.len() {
            a@.len()
        } else {
            b@.len()
        },
{
    rapidfuzz::distance::levenshtein::distance(a.chars(), b.chars())
}

/// Whether the edit distance between `a` and `b` is below three: the budget
/// for resolving a query token against a category name.
pub open spec fn spec_within_three(a: Seq<char>, b: Seq<char>) -> bool {
    lev_distance(a, b) < 3
}

/// Whether the normalised edit distance between `a` and `b` is below 3/10:
/// the grader's fuzzy-match budget. Two empty sequences are a match.
pub open spec fn spec_close_match(a: Seq<char>, b: Seq<char>) -> bool {
    let m = if a.len() >= b.len() {
        a.len()
    } else {
        b.len()
    };
    if m == 0 {
        true
    } else {
        10 * lev_distance(a, b) < 3 * m
    }
}

/// Whether the edit distance between `a` and `b` is below three.
pub fn within_three(a: &str, b: &str) -> (r: bool)
    ensures
        r == spec_within_three(a@, b@),
{
    levenshtein(a, b) < 3
}

/// Whether the normalised edit distance between `a` and `b` is below 3/10.
pub fn close_match(a: &str, b: &str) -> (r: bool)
    ensures
        r == spec_close_match(a@, b@),
        a@ == b@ ==> r,
{
    let d = levenshtein(a, b);
    let la = a.unicode_len();
    let lb = b.unicode_len();
    let m = if la >= lb {
        la
    } else {
        lb
    };
    if m == 0 {
        true
    } else {
        (d as u128) * 10 < (m as u128) * 3
    }
}

} // verus!
