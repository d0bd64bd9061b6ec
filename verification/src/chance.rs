//! The random source of the engine: the thread-local generator of `rand`.
//!
//! Nothing in this file is proved, and nothing is claimed of a draw but what
//! holds of every outcome.

use rand::rngs::ThreadRng;
use rand::Rng;
use vstd::prelude::*;

verus! {

#[verifier::external_type_specification]
#[verifier::external_body]
pub struct ExThreadRng(rand::rngs::ThreadRng);

/// `rand::thread_rng`: a handle to the generator of the calling thread.
#[verifier::external_body]
pub(crate) fn thread_generator() -> ThreadRng {
    rand::thread_rng()
}

/// `Rng::gen_ratio`: a draw that is `true` with a chance of `numerator` in
/// `denominator`. The call panics on a zero denominator and on a numerator
/// above the denominator, so neither is admitted. Only the two certain
/// ratios fix the outcome.
#[verifier::external_body]
pub(crate) fn draw_ratio(rng: &mut ThreadRng, numerator: u32, denominator: u32) -> (hit: bool)
    requires
        0 < denominator,
        numerator <= denominator,
    ensures
        numerator == denominator ==> hit,
        numerator == 0 ==> !hit,
{
    rng.gen_ratio(numerator, denominator)
}

} // verus!
