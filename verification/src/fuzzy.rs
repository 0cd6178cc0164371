//! Fuzzy resolution of a free-text query against candidate display strings:
//! each candidate is scored against the query on a 0 to 100 scale and kept
//! exactly when its score lies strictly above the threshold, in input order.

use vstd::prelude::*;
use crate::catalog::Title;
use vstd::utf8::is_ascii_chars;

verus! {

/// The similarity score that `fuzzywuzzy::fuzz::ratio` computes for a pair
/// of strings: a function of the two character sequences alone.
pub uninterp spec fn ratio_of(a: Seq<char>, b: Seq<char>) -> int;

/// Relies on `fuzzywuzzy::fuzz::ratio`: a matching-blocks similarity score
/// between 0 and 100, reaching 100 on equal strings (two empty ones
/// included), and depending on the two strings alone. Its internal byte
/// slicing panics on some non-ASCII inputs, so ASCII is required here.
#[verifier::external_body]
fn similarity(a: &str, b: &str) -> (r: u8)
    requires
        is_ascii_chars(a@),
        is_ascii_chars(b@),
    ensures
        r as int == ratio_of(a@, b@),
        r <= 100,
        a@ == b@ ==> r == 100,
{
    fuzzywuzzy::fuzz::ratio(a, b)
}

/// Default similarity threshold of the resolver.
pub const DEFAULT_THRESHOLD: u8 = 50;

/// The indices of the first `n` candidates whose score against `query` lies
/// strictly above `threshold`, in input order.
pub open spec fn selected_up_to(
    query: Seq<char>,
    candidates: Seq<Seq<char>>,
    threshold: int,
    n: int,
) -> Seq<int>
    decreases n,
{
    if n <= 0 {
        Seq::empty()
    } else if ratio_of(query, candidates[n - 1]) > threshold {
        selected_up_to(query, candidates, threshold, n - 1).push(n - 1)
    } else {
        selected_up_to(query, candidates, threshold, n - 1)
    }
}

/// Scores `query` against every candidate and returns the indices of those
/// scoring strictly above `threshold`, in input order. An empty candidate
/// list yields an empty result. A candidate equal to the query scores the
/// metric's maximum, so it is always kept while the threshold lies below
/// 100; a threshold at or above 100 excludes every candidate, since no
/// score exceeds 100.
pub fn resolve(query: &str, candidates: &Vec<String>, threshold: u8) -> (r: Vec<usize>)
    requires
        is_ascii_chars(query@),
        forall|k: int| 0 <= k < candidates@.len() ==> is_ascii_chars((#[trigger] candidates@[k])@),
    ensures
        r@.map_values(|i: usize| i as int) == selected_up_to(
            query@,
            candidates.deep_view(),
            threshold as int,
            candidates@.len() as int,
        ),
        forall|j: int|
            0 <= j < candidates@.len() && (#[trigger] candidates@[j])@ == query@ && threshold < 100
                ==> r@.map_values(|i: usize| i as int).contains(j),
        threshold >= 100 ==> r@.len() == 0,
{
    let ghost cs = candidates.deep_view();
    let n = candidates.len();
    let mut r: Vec<usize> = Vec::new();
    let mut k: usize = 0;
    while k < n
        invariant
            k <= n,
            n == candidates@.len(),
            cs == candidates.deep_view(),
            is_ascii_chars(query@),
            forall|j: int| 0 <= j < n ==> is_ascii_chars((#[trigger] candidates@[j])@),
            r@.map_values(|i: usize| i as int) == selected_up_to(
                query@,
                cs,
                threshold as int,
                k as int,
            ),
            forall|j: int|
                0 <= j < k && (#[trigger] candidates@[j])@ == query@ && threshold < 100 ==> r@
                    .map_values(|i: usize| i as int).contains(j),
            threshold >= 100 ==> r@.len() == 0,
        decreases n - k,
    {
        let score = similarity(query, candidates[k].as_str());
        let ghost prev = r@.map_values(|i: usize| i as int);
        if score > threshold {
            r.push(k);
            assert(r@.map_values(|i: usize| i as int) =~= prev.push(k as int));
        }
        assert forall|j: int|
            0 <= j < k + 1 && (#[trigger] candidates@[j])@ == query@ && threshold < 100 implies r@
            .map_values(|i: usize| i as int).contains(j) by {
            if j < k {
                assert(prev.contains(j));
                let w = choose|w: int| 0 <= w < prev.len() && prev[w] == j;
                assert(r@.map_values(|i: usize| i as int)[w] == j);
            } else {
                assert(cs[j] == query@);
                assert(r@.map_values(|i: usize| i as int).last() == j);
            }
        }
        k = k + 1;
    }
    r
}

/// The candidate titles among the first `n` whose display name scores
/// strictly above `threshold` against `query`, in input order.
pub open spec fn resolved_titles_up_to(
    query: Seq<char>,
    candidates: Seq<Title>,
    threshold: int,
    n: int,
) -> Seq<Title>
    decreases n,
{
    if n <= 0 {
        Seq::empty()
    } else if ratio_of(query, candidates[n - 1].name@) > threshold {
        resolved_titles_up_to(query, candidates, threshold, n - 1).push(candidates[n - 1])
    } else {
        resolved_titles_up_to(query, candidates, threshold, n - 1)
    }
}

/// Narrows a candidate title list to those whose display name scores
/// strictly above `threshold` against the query, keeping input order. A
/// candidate whose name equals the query is always kept while the
/// threshold lies below 100; a threshold at or above 100 keeps none.
pub fn find_titles(query: &str, candidates: &Vec<Title>, threshold: u8) -> (r: Vec<Title>)
    requires
        is_ascii_chars(query@),
        forall|k: int| 0 <= k < candidates@.len() ==> is_ascii_chars((#[trigger] candidates@[k]).name@),
    ensures
        r@ == resolved_titles_up_to(
            query@,
            candidates@,
            threshold as int,
            candidates@.len() as int,
        ),
        forall|j: int|
            0 <= j < candidates@.len() && (#[trigger] candidates@[j]).name@ == query@ && threshold
                < 100 ==> r@.contains(candidates@[j]),
        threshold >= 100 ==> r@.len() == 0,
{
    let n = candidates.len();
    let mut r: Vec<Title> = Vec::new();
    let mut k: usize = 0;
    while k < n
        invariant
            k <= n,
            n == candidates@.len(),
            is_ascii_chars(query@),
            forall|j: int|
                0 <= j < n ==> is_ascii_chars((#[trigger] candidates@[j]).name@),
            r@ == resolved_titles_up_to(query@, candidates@, threshold as int, k as int),
            forall|j: int|
                0 <= j < k && (#[trigger] candidates@[j]).name@ == query@ && threshold < 100
                    ==> r@.contains(candidates@[j]),
            threshold >= 100 ==> r@.len() == 0,
        decreases n - k,
    {
        let t = &candidates[k];
        let score = similarity(query, t.name.as_str());
        let ghost prev = r@;
        if score > threshold {
            r.push(Title::new(t.name.clone(), t.url.clone()));
            assert(r@.last() == candidates@[k as int]);
            assert(r@ =~= prev.push(candidates@[k as int]));
        }
        assert forall|j: int|
            0 <= j < k + 1 && (#[trigger] candidates@[j]).name@ == query@ && threshold < 100
                implies r@.contains(candidates@[j]) by {
            if j < k {
                assert(prev.contains(candidates@[j]));
                let w = choose|w: int| 0 <= w < prev.len() && prev[w] == candidates@[j];
                assert(r@[w] == candidates@[j]);
            } else {
                assert(ratio_of(query@, candidates@[k as int].name@) == 100);
                assert(r@.last() == candidates@[k as int]);
            }
        }
        k = k + 1;
    }
    r
}

} // verus!
