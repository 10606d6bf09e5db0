//! Random draws, taken from `rand`'s thread-local generator.
//!
//! Nothing can be promised about a random value beyond the range it is drawn
//! from; the logic that consumes a draw takes it as an argument elsewhere and is
//! verified for every value in that range.
use rand::distributions::Distribution;
use rand::Rng;
use vstd::prelude::*;

verus! {

/// Relies on `rand::Rng::gen_range` over the inclusive range `lo..=hi`: the value lies
/// in the range. It panics on an empty range, which `requires` excludes.
#[verifier::external_body]
pub(crate) fn random_between(lo: i64, hi: i64) -> (r: i64)
    requires
        lo <= hi,
    ensures
        lo <= r <= hi,
{
    rand::thread_rng().gen_range(lo..=hi)
}

/// Relies on `rand::distributions::WeightedIndex` (`new`, then `sample`): the index
/// lies within the weights and, as sampling only lands on a positive weight, points
/// at one. `new` fails on an empty list or a zero total, and the running total must
/// fit in `u32`, which `requires` ensures.
#[verifier::external_body]
pub(crate) fn weighted_pick(weights: &Vec<u32>) -> (r: usize)
    requires
        1 <= weights@.len() <= 16,
        forall|i: int| 0 <= i < weights@.len() ==> 1 <= #[trigger] weights@[i] <= 1_000_000,
    ensures
        r < weights@.len(),
{
    rand::distributions::WeightedIndex::new(weights.iter()).unwrap().sample(
        &mut rand::thread_rng(),
    )
}

/// Relies on `rand::random::<bool>`: a fair coin; nothing is known of the outcome.
#[verifier::external_body]
pub(crate) fn coin_flip() -> (r: bool) {
    rand::random::<bool>()
}

} // verus!
