//! The first index in a range that satisfies a predicate.

use vstd::prelude::*;

verus! {

/// The least `i` in `[0, n)` with `p(i)`, if there is one.
pub open spec fn first_where(n: int, p: spec_fn(int) -> bool) -> Option<int> {
    if exists|i: int| 0 <= i < n && #[trigger] p(i) {
        Some(choose|i: int| 0 <= i < n && #[trigger] p(i) && forall|j: int| 0 <= j < i ==> !#[trigger] p(j))
    } else {
        None
    }
}

proof fn lemma_least_exists(n: int, p: spec_fn(int) -> bool, i: int)
    requires
        0 <= i < n,
        p(i),
    ensures
        exists|k: int| 0 <= k < n && #[trigger] p(k) && forall|j: int| 0 <= j < k ==> !#[trigger] p(j),
    decreases i,
{
    if exists|j: int| 0 <= j < i && #[trigger] p(j) {
        let j = choose|j: int| 0 <= j < i && #[trigger] p(j);
        lemma_least_exists(n, p, j);
    } else {
        assert(forall|j: int| 0 <= j < i ==> !#[trigger] p(j));
    }
}

/// What [`first_where`] gives: an index that satisfies `p` with none before
/// it, or nothing when no index in range satisfies `p`.
pub proof fn lemma_first_where(n: int, p: spec_fn(int) -> bool)
    ensures
        first_where(n, p) matches Some(k) ==> 0 <= k < n && p(k) && forall|j: int| 0 <= j < k ==> !#[trigger] p(j),
        first_where(n, p) is None ==> forall|i: int| 0 <= i < n ==> !#[trigger] p(i),
{
    if exists|i: int| 0 <= i < n && #[trigger] p(i) {
        let i = choose|i: int| 0 <= i < n && #[trigger] p(i);
        lemma_least_exists(n, p, i);
    }
}

/// An index that satisfies `p`, with none before it, is the first one.
pub proof fn lemma_first_where_at(n: int, p: spec_fn(int) -> bool, k: int)
    requires
        0 <= k < n,
        p(k),
        forall|j: int| 0 <= j < k ==> !#[trigger] p(j),
    ensures
        first_where(n, p) == Some(k),
{
    lemma_first_where(n, p);
    let m = first_where(n, p)->0;
    if m < k {
        assert(!p(m));
    }
    if m > k {
        assert(!p(k));
    }
}

} // verus!
