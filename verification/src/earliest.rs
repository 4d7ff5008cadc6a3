//! The earliest element of a sequence that satisfies a predicate.

use vstd::prelude::*;

verus! {

/// `i` is the position of the first element of `s` that satisfies `p`.
pub open spec fn is_earliest<T>(s: Seq<T>, p: spec_fn(T) -> bool, i: int) -> bool {
    &&& 0 <= i < s.len()
    &&& p(s[i])
    &&& forall|j: int| 0 <= j < i ==> !p(#[trigger] s[j])
}

/// No element of `s` satisfies `p`.
pub open spec fn none_satisfies<T>(s: Seq<T>, p: spec_fn(T) -> bool) -> bool {
    forall|j: int| 0 <= j < s.len() ==> !p(#[trigger] s[j])
}

/// The position of the first element of `s` that satisfies `p`, or `None` if
/// no element does.
pub open spec fn earliest<T>(s: Seq<T>, p: spec_fn(T) -> bool) -> Option<int> {
    if none_satisfies(s, p) {
        None
    } else {
        Some(choose|i: int| is_earliest(s, p, i))
    }
}

/// Below any position that satisfies `p` there is an earliest one.
pub proof fn lemma_earliest_exists<T>(s: Seq<T>, p: spec_fn(T) -> bool, k: int)
    requires
        0 <= k < s.len(),
        p(s[k]),
    ensures
        exists|i: int| i <= k && is_earliest(s, p, i),
    decreases k,
{
    if exists|j: int| 0 <= j < k && p(#[trigger] s[j]) {
        let j = choose|j: int| 0 <= j < k && p(#[trigger] s[j]);
        lemma_earliest_exists(s, p, j);
        let i = choose|i: int| i <= j && is_earliest(s, p, i);
        assert(i <= k && is_earliest(s, p, i));
    } else {
        assert(is_earliest(s, p, k));
    }
}

/// `earliest` is `Some(i)` exactly for the one `i` that `is_earliest` accepts,
/// and `None` exactly when nothing satisfies `p`.
pub proof fn lemma_earliest_characterized<T>(s: Seq<T>, p: spec_fn(T) -> bool)
    ensures
        earliest(s, p) is None <==> none_satisfies(s, p),
        earliest(s, p) matches Some(first) ==> is_earliest(s, p, first),
        forall|i: int| #[trigger] is_earliest(s, p, i) ==> earliest(s, p) == Some(i),
{
    if !none_satisfies(s, p) {
        let k = choose|k: int| 0 <= k < s.len() && p(#[trigger] s[k]);
        lemma_earliest_exists(s, p, k);
        let first = choose|i: int| is_earliest(s, p, i);
        assert forall|i: int| #[trigger] is_earliest(s, p, i) implies i == first by {
            if i < first {
                assert(!p(s[i]));
            } else if first < i {
                assert(!p(s[first]));
            }
        }
    }
}

} // verus!
