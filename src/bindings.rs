//! The calls this library makes into outside crates, each with the contract
//! that the library relies on.

use vstd::prelude::*;
use rand::distributions::{Distribution, WeightedIndex};
use rand::Rng;
use rangemap::RangeMap;
use crate::sampler::{drawable, valid_weights};

verus! {

#[verifier::external_type_specification]
#[verifier::external_body]
#[verifier::reject_recursive_types(K)]
#[verifier::reject_recursive_types(V)]
pub struct ExRangeMap<K, V>(RangeMap<K, V>);

/// The key-to-value assignment that a range map holds: each key covered by a
/// stored range maps to that range's value.
pub uninterp spec fn range_points(m: RangeMap<i32, usize>) -> Map<i32, usize>;

/// Relies on `RangeMap::new`: the new map covers no key.
#[verifier::external_body]
pub(crate) fn range_map_new() -> (r: RangeMap<i32, usize>)
    ensures
        range_points(r).dom() == Set::<i32>::empty(),
{
    RangeMap::new()
}

/// Relies on `RangeMap::insert`: afterwards every key of `start..end` maps to
/// `value`, and every other key keeps what it had. It panics on an empty range.
#[verifier::external_body]
pub(crate) fn range_map_insert(m: &mut RangeMap<i32, usize>, start: i32, end: i32, value: usize)
    requires
        start < end,
    ensures
        forall|k: i32| #[trigger]
            range_points(*final(m)).contains_key(k) == ((start <= k && k < end)
                || range_points(*old(m)).contains_key(k)),
        forall|k: i32|
            start <= k && k < end ==> #[trigger] range_points(*final(m))[k] == value,
        forall|k: i32|
            !(start <= k && k < end) && range_points(*old(m)).contains_key(k)
                ==> #[trigger] range_points(*final(m))[k] == range_points(*old(m))[k],
{
    m.insert(start..end, value)
}

/// Relies on `RangeMap::get`: the value of the range that covers `key`, if any.
#[verifier::external_body]
pub(crate) fn range_map_get(m: &RangeMap<i32, usize>, key: i32) -> (r: Option<usize>)
    ensures
        r == (if range_points(*m).contains_key(key) {
            Some(range_points(*m)[key])
        } else {
            None
        }),
{
    m.get(&key).copied()
}

/// Relies on `rand::Rng::gen_range` over the thread-local generator: a value
/// in `0..bound`. It panics on an empty range.
#[verifier::external_body]
pub(crate) fn random_below(bound: u64) -> (r: u64)
    requires
        bound > 0,
    ensures
        r < bound,
{
    rand::thread_rng().gen_range(0..bound)
}

/// Relies on `rand::distributions::WeightedIndex` over the thread-local
/// generator: it draws `x` uniformly below the total weight and returns the
/// index whose running sums hold it, `prefix(i) <= x < prefix(i + 1)`. The
/// weights are widened to `u64` so that their total cannot overflow.
#[verifier::external_body]
pub(crate) fn weighted_draw(weights: &Vec<u32>) -> (r: usize)
    requires
        valid_weights(weights@),
    ensures
        r < weights.len(),
        drawable(weights@, r as int),
{
    let dist = WeightedIndex::new(weights.iter().map(|w| *w as u64)).unwrap();
    dist.sample(&mut rand::thread_rng())
}

} // verus!
