//! The random source: the thread-local generator of the `rand` crate.
//!
//! Nothing is proved of these functions. The library claims of a draw only
//! what holds of every outcome, and hands each draw to verified code that
//! is specified for all of them.

use vstd::prelude::*;
use rand::Rng;

verus! {

/// Calls `rand::random::<u32>()`: a `u32` drawn uniformly from the
/// thread-local generator. Any value may come back, so the contract states
/// nothing of it.
#[verifier::external_body]
pub(crate) fn random_u32() -> (draw: u32) {
    rand::random::<u32>()
}

/// Calls `Rng::gen_ratio` on the thread-local generator: `true` with a
/// chance of `numerator` in `denominator`. The function panics on a
/// denominator of 0 and on a numerator above the denominator, which the
/// precondition leaves out. Its documentation promises `true` where the
/// two are equal and `false` for a numerator of 0.
#[verifier::external_body]
pub(crate) fn random_ratio(numerator: u32, denominator: u32) -> (out: bool)
    requires
        0 < denominator,
        numerator <= denominator,
    ensures
        numerator == denominator ==> out,
        numerator == 0 ==> !out,
{
    rand::thread_rng().gen_ratio(numerator, denominator)
}

} // verus!
