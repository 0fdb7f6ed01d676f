//! Random draws from the thread-local generator of `rand`.
use vstd::prelude::*;

use rand::Rng;

verus! {

/// Relies on `rand::thread_rng` and `Rng::gen_range` over `0..bound`: a
/// number below `bound`. `gen_range` panics on an empty range, hence
/// `bound > 0`.
#[verifier::external_body]
pub(crate) fn draw_below(bound: u32) -> (r: u32)
    requires
        bound > 0,
    ensures
        r < bound,
{
    rand::thread_rng().gen_range(0..bound)
}

/// Relies on `rand::thread_rng` and `Rng::gen::<bool>`: a fair coin.
#[verifier::external_body]
pub(crate) fn flip_coin() -> (r: bool) {
    rand::thread_rng().gen::<bool>()
}

/// Relies on `rand::thread_rng` and `Rng::gen_ratio`: true with probability
/// `numerator / denominator`. Through `Bernoulli::from_ratio` it panics unless
/// `numerator <= denominator` and `denominator > 0`; a ratio of one is always
/// true and a ratio of zero never is.
#[verifier::external_body]
pub(crate) fn chance(numerator: u32, denominator: u32) -> (r: bool)
    requires
        0 < denominator,
        numerator <= denominator,
    ensures
        numerator == denominator ==> r,
        numerator == 0 ==> !r,
{
    rand::thread_rng().gen_ratio(numerator, denominator)
}

} // verus!
