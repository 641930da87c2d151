//! The random source of the event resolver.
//!
//! Events are drawn from a seedable generator that the caller owns and hands
//! in, so that a run can be repeated from its seed. Nothing is proved about
//! the generator itself: the two draws below state only what its
//! documentation promises of every outcome.

use rand::rngs::StdRng;
use rand::Rng;
use vstd::prelude::*;

verus! {

#[verifier::external_type_specification]
#[verifier::external_body]
pub struct ExStdRng(StdRng);

/// `rand::Rng::random_ratio` on a `StdRng`: one Bernoulli trial that succeeds
/// with probability `numerator / denominator`. The contract claims what the
/// method documents: a ratio of 0 never succeeds, a ratio of 1 always does,
/// and nothing else is known of the outcome. The method panics on a zero
/// denominator and on a ratio above 1, which `requires` rules out.
#[verifier::external_body]
pub(crate) fn random_ratio(rng: &mut StdRng, numerator: u32, denominator: u32) -> (hit: bool)
    requires
        denominator > 0,
        numerator <= denominator,
    ensures
        numerator == 0 ==> !hit,
        numerator == denominator ==> hit,
{
    rng.random_ratio(numerator, denominator)
}

/// `rand::Rng::random_range` on a `StdRng` with an inclusive range of `u64`:
/// the contract claims that the value lies in `[low, high]`, and no more.
/// The method panics on an empty range, which `requires` rules out.
#[verifier::external_body]
pub(crate) fn random_range_inclusive(rng: &mut StdRng, low: u64, high: u64) -> (value: u64)
    requires
        low <= high,
    ensures
        low <= value <= high,
{
    rng.random_range(low..=high)
}

} // verus!
