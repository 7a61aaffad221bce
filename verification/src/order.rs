//! Stable insertion into result sequences ordered by an integer key.
//!
//! Query results are built one candidate at a time, in catalog order; each
//! candidate is inserted after every element whose key is at most its own,
//! so equal keys keep catalog order and the whole sequence stays
//! non-decreasing in the key.

use vstd::prelude::*;
use vstd::seq_lib::group_seq_properties;

use crate::feature::abs_dist;
use crate::feature::abs_dist_of;
use crate::feature::GenomicFeature;

verus! {

broadcast use group_seq_properties;

/// The key that orders overlap-style results: the feature's start.
pub open spec fn start_key() -> spec_fn(GenomicFeature) -> int {
    |g: GenomicFeature| g.start as int
}

/// The key that orders nearest-neighbor results: the absolute distance.
pub open spec fn absdist_key() -> spec_fn(GenomicFeature) -> int {
    |g: GenomicFeature| abs_dist(g.dist)
}

/// The position at which a candidate with key `k` is inserted: just past
/// every leading element whose key is at most `k`.
pub open spec fn find_pos(s: Seq<GenomicFeature>, key: spec_fn(GenomicFeature) -> int, k: int) -> int
    decreases s.len(),
{
    if s.len() > 0 && key(s[0]) <= k {
        1 + find_pos(s.drop_first(), key, k)
    } else {
        0
    }
}

/// Stable insertion of `x` by key: after equal keys, before greater ones.
pub open spec fn insert_sorted(
    s: Seq<GenomicFeature>,
    key: spec_fn(GenomicFeature) -> int,
    x: GenomicFeature,
) -> Seq<GenomicFeature> {
    s.insert(find_pos(s, key, key(x)), x)
}

/// Non-decreasing in the key.
pub open spec fn sorted_by_key(s: Seq<GenomicFeature>, key: spec_fn(GenomicFeature) -> int) -> bool {
    forall|i: int, j: int| 0 <= i <= j < s.len() ==> key(s[i]) <= key(s[j])
}

/// The insertion position splits the sequence: keys at most `k` before it,
/// a key above `k` (if anything) right at it.
pub proof fn lemma_find_pos_properties(
    s: Seq<GenomicFeature>,
    key: spec_fn(GenomicFeature) -> int,
    k: int,
)
    ensures
        0 <= find_pos(s, key, k) <= s.len(),
        forall|j: int| 0 <= j < find_pos(s, key, k) ==> key(#[trigger] s[j]) <= k,
        find_pos(s, key, k) < s.len() ==> key(s[find_pos(s, key, k)]) > k,
    decreases s.len(),
{
    if s.len() > 0 && key(s[0]) <= k {
        lemma_find_pos_properties(s.drop_first(), key, k);
        assert forall|j: int| 0 <= j < find_pos(s, key, k) implies key(#[trigger] s[j]) <= k by {
            if j > 0 {
                assert(s.drop_first()[j - 1] == s[j]);
            }
        }
        if find_pos(s, key, k) < s.len() {
            assert(s.drop_first()[find_pos(s.drop_first(), key, k)] == s[find_pos(s, key, k)]);
        }
    }
}

/// A position with the splitting property of `lemma_find_pos_properties`
/// is the insertion position: there is only one such split.
pub proof fn lemma_find_pos_unique(
    s: Seq<GenomicFeature>,
    key: spec_fn(GenomicFeature) -> int,
    k: int,
    p: int,
)
    requires
        0 <= p <= s.len(),
        forall|j: int| 0 <= j < p ==> key(#[trigger] s[j]) <= k,
        p < s.len() ==> key(s[p]) > k,
    ensures
        p == find_pos(s, key, k),
{
    lemma_find_pos_properties(s, key, k);
    let q = find_pos(s, key, k);
    if p < q {
        assert(key(s[p]) <= k);
    } else if q < p {
        assert(key(s[q]) <= k);
    }
}

/// Insertion adds exactly the candidate to the sequence's contents.
pub proof fn lemma_insert_sorted_multiset(
    s: Seq<GenomicFeature>,
    key: spec_fn(GenomicFeature) -> int,
    x: GenomicFeature,
)
    ensures
        insert_sorted(s, key, x).len() == s.len() + 1,
        insert_sorted(s, key, x).to_multiset() == s.to_multiset().insert(x),
{
    lemma_find_pos_properties(s, key, key(x));
    vstd::seq_lib::to_multiset_insert(s, find_pos(s, key, key(x)), x);
}

/// Insertion keeps a sequence non-decreasing in the key.
pub proof fn lemma_insert_sorted_sorted(
    s: Seq<GenomicFeature>,
    key: spec_fn(GenomicFeature) -> int,
    x: GenomicFeature,
)
    requires
        sorted_by_key(s, key),
    ensures
        sorted_by_key(insert_sorted(s, key, x), key),
{
    let k = key(x);
    let p = find_pos(s, key, k);
    lemma_find_pos_properties(s, key, k);
    s.insert_ensures(p, x);
    let t = insert_sorted(s, key, x);
    assert forall|i: int, j: int| 0 <= i <= j < t.len() implies key(t[i]) <= key(t[j]) by {
        if i < p {
            assert(t[i] == s[i]);
        }
        if j < p {
            assert(t[j] == s[j]);
        }
        if i > p {
            assert(t[i] == s[i - 1]);
            assert(key(s[p]) <= key(s[i - 1]));
        }
        if j > p {
            assert(t[j] == s[j - 1]);
            assert(key(s[p]) <= key(s[j - 1]));
        }
    }
}

/// Inserts `x` into a vector ordered by feature start, after every element
/// whose start is at most `x`'s.
pub fn insert_by_start(v: &mut Vec<GenomicFeature>, x: GenomicFeature)
    ensures
        final(v)@ == insert_sorted(old(v)@, start_key(), x),
{
    let mut p: usize = 0;
    while p < v.len() && v[p].start <= x.start
        invariant
            p <= v@.len(),
            forall|j: int| 0 <= j < p ==> (#[trigger] v@[j]).start <= x.start,
        decreases v@.len() - p,
    {
        p = p + 1;
    }
    proof {
        let key = start_key();
        assert forall|j: int| 0 <= j < p implies key(#[trigger] v@[j]) <= key(x) by {
            assert(v@[j].start <= x.start);
        }
        lemma_find_pos_unique(v@, key, key(x), p as int);
    }
    v.insert(p, x);
}

/// Inserts `x` into a vector ordered by absolute distance, after every
/// element whose absolute distance is at most `x`'s.
pub fn insert_by_absdist(v: &mut Vec<GenomicFeature>, x: GenomicFeature)
    ensures
        final(v)@ == insert_sorted(old(v)@, absdist_key(), x),
{
    let xa = abs_dist_of(x.dist);
    let mut p: usize = 0;
    while p < v.len() && abs_dist_of(v[p].dist) <= xa
        invariant
            p <= v@.len(),
            xa == abs_dist(x.dist),
            forall|j: int| 0 <= j < p ==> abs_dist((#[trigger] v@[j]).dist) <= abs_dist(x.dist),
        decreases v@.len() - p,
    {
        p = p + 1;
    }
    proof {
        let key = absdist_key();
        assert forall|j: int| 0 <= j < p implies key(#[trigger] v@[j]) <= key(x) by {
            assert(abs_dist(v@[j].dist) <= abs_dist(x.dist));
        }
        lemma_find_pos_unique(v@, key, key(x), p as int);
    }
    v.insert(p, x);
}

} // verus!
