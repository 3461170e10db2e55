//! Drawing an index from a list of non-negative integer weights.
//!
//! A draw is a number in `0..total`; bucket `i` owns the draws from the sum of
//! the weights before it up to, but not including, that sum plus its own weight.

use vstd::prelude::*;
use vstd::set_lib::{lemma_int_range, set_int_range};
use crate::bindings::weighted_draw;

verus! {

/// The largest number of weights a table may hold.
pub const MAX_WEIGHTS: usize = 65536;

/// The sum of the first `n` weights.
pub open spec fn weight_prefix(w: Seq<u32>, n: int) -> int
    decreases n,
{
    if n <= 0 || n > w.len() {
        0
    } else {
        weight_prefix(w, n - 1) + w[n - 1] as int
    }
}

/// The sum of all weights.
pub open spec fn weight_total(w: Seq<u32>) -> int {
    weight_prefix(w, w.len() as int)
}

/// Bucket `i` owns draw `d`.
pub open spec fn owns(w: Seq<u32>, i: int, d: int) -> bool {
    0 <= i < w.len() && weight_prefix(w, i) <= d < weight_prefix(w, i + 1)
}

/// Some draw below the total falls to bucket `i`.
pub open spec fn drawable(w: Seq<u32>, i: int) -> bool {
    exists|d: int| 0 <= d < weight_total(w) && owns(w, i, d)
}

/// A usable weight list: not empty, not too long, and not all zero.
pub open spec fn valid_weights(w: Seq<u32>) -> bool {
    &&& 0 < w.len() <= MAX_WEIGHTS
    &&& exists|i: int| 0 <= i < w.len() && #[trigger] w[i] > 0
}

pub proof fn lemma_prefix_monotonic(w: Seq<u32>, a: int, b: int)
    requires
        0 <= a <= b <= w.len(),
    ensures
        weight_prefix(w, a) <= weight_prefix(w, b),
    decreases b - a,
{
    if a < b {
        lemma_prefix_monotonic(w, a, b - 1);
    }
}

proof fn lemma_prefix_bound(w: Seq<u32>, n: int)
    requires
        0 <= n <= w.len(),
    ensures
        0 <= weight_prefix(w, n) <= n * (u32::MAX as int),
    decreases n,
{
    if n > 0 {
        lemma_prefix_bound(w, n - 1);
    }
}

/// A valid weight list has a positive total that fits in a `u64`.
pub proof fn lemma_valid_total(w: Seq<u32>)
    requires
        valid_weights(w),
    ensures
        0 < weight_total(w) <= u64::MAX,
{
    let i = choose|i: int| 0 <= i < w.len() && #[trigger] w[i] > 0;
    lemma_prefix_monotonic(w, i + 1, w.len() as int);
    lemma_prefix_monotonic(w, 0, i);
    lemma_prefix_bound(w, w.len() as int);
    assert(w.len() * (u32::MAX as int) <= MAX_WEIGHTS * (u32::MAX as int)) by (nonlinear_arith)
        requires
            w.len() <= MAX_WEIGHTS,
    ;
}

/// No draw is owned by two buckets.
pub proof fn lemma_owner_unique(w: Seq<u32>, i: int, j: int, d: int)
    requires
        owns(w, i, d),
        owns(w, j, d),
    ensures
        i == j,
{
    if i < j {
        lemma_prefix_monotonic(w, i + 1, j);
    } else if j < i {
        lemma_prefix_monotonic(w, j + 1, i);
    }
}

/// Every draw below the total is owned by some bucket.
pub proof fn lemma_owner_exists(w: Seq<u32>, d: int)
    requires
        0 <= d < weight_total(w),
    ensures
        exists|i: int| owns(w, i, d),
    decreases w.len(),
{
    let n = w.len() as int;
    if d >= weight_prefix(w, n - 1) {
        assert(owns(w, n - 1, d));
    } else {
        let v = w.drop_last();
        assert forall|k: int| 0 <= k <= v.len() implies weight_prefix(v, k) == weight_prefix(w, k) by {
            lemma_prefix_prefix(w, v, k);
        }
        lemma_owner_exists(v, d);
        let i = choose|i: int| owns(v, i, d);
        assert(owns(w, i, d));
    }
}

proof fn lemma_prefix_prefix(w: Seq<u32>, v: Seq<u32>, k: int)
    requires
        v.len() <= w.len(),
        forall|j: int| 0 <= j < v.len() ==> v[j] == w[j],
        0 <= k <= v.len(),
    ensures
        weight_prefix(v, k) == weight_prefix(w, k),
    decreases k,
{
    if k > 0 {
        lemma_prefix_prefix(w, v, k - 1);
    }
}

/// Of the `weight_total(w)` equally likely draws, exactly `w[i]` fall to
/// bucket `i`: a uniform draw picks each index in proportion to its weight.
pub proof fn lemma_bucket_share(w: Seq<u32>, i: int)
    requires
        valid_weights(w),
        0 <= i < w.len(),
    ensures
        Set::new(|d: int| 0 <= d < weight_total(w) && owns(w, i, d)).finite(),
        Set::new(|d: int| 0 <= d < weight_total(w) && owns(w, i, d)).len() == w[i] as int,
{
    let s = Set::new(|d: int| 0 <= d < weight_total(w) && owns(w, i, d));
    let lo = weight_prefix(w, i);
    let hi = weight_prefix(w, i + 1);
    lemma_prefix_monotonic(w, i + 1, w.len() as int);
    lemma_prefix_monotonic(w, 0, i);
    assert(s =~= set_int_range(lo, hi));
    lemma_int_range(lo, hi);
}

/// The sum of the weights.
pub fn total_weight(weights: &Vec<u32>) -> (r: u64)
    requires
        valid_weights(weights@),
    ensures
        r == weight_total(weights@),
{
    proof {
        lemma_valid_total(weights@);
    }
    let mut acc: u64 = 0;
    let mut i: usize = 0;
    while i < weights.len()
        invariant
            i <= weights.len(),
            acc == weight_prefix(weights@, i as int),
            weight_total(weights@) <= u64::MAX,
        decreases weights.len() - i,
    {
        proof {
            lemma_prefix_monotonic(weights@, i + 1, weights.len() as int);
        }
        acc = acc + weights[i] as u64;
        i = i + 1;
    }
    acc
}

/// The bucket that owns `draw`, found by a scan of the running sums.
pub fn pick_weighted(weights: &Vec<u32>, draw: u64) -> (r: usize)
    requires
        valid_weights(weights@),
        draw < weight_total(weights@),
    ensures
        owns(weights@, r as int, draw as int),
{
    proof {
        lemma_valid_total(weights@);
    }
    let mut acc: u64 = 0;
    let mut i: usize = 0;
    while i < weights.len()
        invariant
            i <= weights.len(),
            acc == weight_prefix(weights@, i as int),
            acc <= draw,
            draw < weight_total(weights@),
            weight_total(weights@) <= u64::MAX,
        decreases weights.len() - i,
    {
        proof {
            lemma_prefix_monotonic(weights@, i + 1, weights.len() as int);
        }
        let next = acc + weights[i] as u64;
        if draw < next {
            return i;
        }
        acc = next;
        i = i + 1;
    }
    i
}

/// Draws a bucket at random, each with a chance proportional to its weight:
/// the bucket that owns a uniform draw below the total. Whatever the draw,
/// the result is a bucket of positive weight.
pub fn sample(weights: &Vec<u32>) -> (r: usize)
    requires
        valid_weights(weights@),
    ensures
        r < weights.len(),
        weights@[r as int] > 0,
        drawable(weights@, r as int),
{
    let r = weighted_draw(weights);
    proof {
        let d = choose|d: int| 0 <= d < weight_total(weights@) && owns(weights@, r as int, d);
        assert(owns(weights@, r as int, d));
    }
    r
}

} // verus!
