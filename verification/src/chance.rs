//! The random source. What is stated here about the `rand` crate is taken on
//! trust from its documentation and source; nothing in this file is proved.

use rand::Rng;
use vstd::prelude::*;

verus! {

/// `rand::rngs::ThreadRng`, the handle to the calling thread's generator.
/// It is carried around and never looked into.
#[verifier::external_type_specification]
#[verifier::external_body]
pub struct ExThreadRng(rand::rngs::ThreadRng);

/// `rand::thread_rng` returns a handle to the calling thread's generator.
/// Nothing is claimed of the handle.
pub assume_specification[ rand::thread_rng ]() -> (rng: rand::rngs::ThreadRng)
;

/// One call of `Rng::gen_range(0, bound)` on a `u32`. The crate documents the
/// result as lying in the half-open range from the low end to the high end,
/// and a panic when the range is empty; so `bound` must be positive, and the
/// result is below it. Which value comes out is left open.
#[verifier::external_body]
pub(crate) fn draw_below(rng: &mut rand::rngs::ThreadRng, bound: u32) -> (n: u32)
    requires
        bound > 0,
    ensures
        n < bound,
{
    rng.gen_range(0, bound)
}

} // verus!
