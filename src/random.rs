//! Random draws for launch velocities, made through rand's thread-local
//! generator. Nothing is known of a draw but its range.
use vstd::prelude::*;
use rand::Rng;

verus! {

#[verifier::external_type_specification]
#[verifier::external_body]
pub struct ExThreadRng(rand::rngs::ThreadRng);

/// Relies on rand::thread_rng: hands out the calling thread's generator.
pub assume_specification[ rand::thread_rng ]() -> rand::rngs::ThreadRng;

/// Relies on rand::Rng::gen_ratio: with numerator 1 and denominator 2 it
/// returns `true` or `false`, each with probability one half.
#[verifier::external_body]
pub(crate) fn fair_coin(rng: &mut rand::rngs::ThreadRng) -> (r: bool) {
    rng.gen_ratio(1, 2)
}

/// Relies on rand::Rng::gen_range: a uniform integer in `[low, high)`; it
/// panics when `low >= high`, which `requires` leaves out.
#[verifier::external_body]
pub(crate) fn uniform_below(rng: &mut rand::rngs::ThreadRng, low: i32, high: i32) -> (r: i32)
    requires
        low < high,
    ensures
        low <= r < high,
{
    rng.gen_range(low, high)
}

} // verus!
