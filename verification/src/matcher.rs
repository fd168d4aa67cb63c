//! The fuzzy matcher behind the search index. The matcher implementation is
//! confined to this module's single entry point, so it can be swapped without
//! touching the search logic built on it.

use vstd::prelude::*;

verus! {

/// What the fuzzy matcher returns for a display name and a query: a relevance
/// score and the matched character positions when the query fuzzily matches
/// the name, nothing otherwise. A function of the two strings alone.
pub uninterp spec fn fuzzy_match_of(name: Seq<char>, query: Seq<char>) -> Option<
    (i64, Seq<usize>),
>;

/// Relies on fuzzy_matcher's `SkimMatcherV2` in its default configuration:
/// `fuzzy_indices` computes the score and the matched character positions
/// from the two strings alone; an empty query matches every name with score
/// zero and no positions; a query equal to the whole name always matches.
#[verifier::external_body]
pub(crate) fn fuzzy_indices(name: &str, query: &str) -> (r: Option<(i64, Vec<usize>)>)
    ensures
        (match r {
            Some(si) => fuzzy_match_of(name@, query@) == Some((si.0, si.1@)),
            None => fuzzy_match_of(name@, query@) is None,
        }),
        query@.len() == 0 ==> (match r {
            Some(si) => si.0 == 0 && si.1@.len() == 0,
            None => false,
        }),
        name@ == query@ ==> r is Some,
{
    let matcher = fuzzy_matcher::skim::SkimMatcherV2::default();
    fuzzy_matcher::FuzzyMatcher::fuzzy_indices(&matcher, name, query)
}

} // verus!
