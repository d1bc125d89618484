//! The random draws of the library, made by the `rand` crate on the
//! generator of the calling thread.

use rand::Rng;
use vstd::prelude::*;

verus! {

/// Draws a whole number from zero up to, and not including, `bound`.
///
/// Calls `rand::Rng::gen_range` with the range `0..bound` on
/// `rand::thread_rng()`. That function panics on an empty range, which
/// `bound > 0` rules out, and returns a value inside the range. Which value
/// is a matter of chance, so nothing more is claimed.
#[verifier::external_body]
pub(crate) fn uniform_below(bound: u64) -> (r: u64)
    requires
        bound > 0,
    ensures
        r < bound,
{
    rand::thread_rng().gen_range(0..bound)
}

/// Tosses a fair coin.
///
/// Calls `rand::Rng::gen_ratio` with one chance in two on
/// `rand::thread_rng()`. Either outcome may come back, so nothing is claimed
/// of the result.
#[verifier::external_body]
pub(crate) fn coin() -> (r: bool) {
    rand::thread_rng().gen_ratio(1, 2)
}

} // verus!
