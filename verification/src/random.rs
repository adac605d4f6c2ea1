//! The source of chance: the thread-local generator of the `rand` crate.
//! Nothing here is proved. Each item states what the `rand` crate documents.

use rand::Rng;
use vstd::prelude::*;

verus! {

/// `rand::rngs::ThreadRng`, the handle to the generator that each thread
/// owns. Its contents are not visible to the verifier.
#[verifier::external_type_specification]
#[verifier::external_body]
pub struct ExThreadRng(rand::rngs::ThreadRng);

/// `rand::thread_rng` hands out the handle to the calling thread's
/// generator. Nothing is claimed of it.
pub assume_specification[ rand::thread_rng ]() -> (rng: rand::rngs::ThreadRng);

/// `Rng::gen_range` on the half-open range `0..bound`. The crate documents
/// that the value drawn lies in the range and that the call panics on an
/// empty range, so `bound` must be positive. Which value comes is left open.
#[verifier::external_body]
pub(crate) fn draw_below(rng: &mut rand::rngs::ThreadRng, bound: u64) -> (k: u64)
    requires
        bound > 0,
    ensures
        k < bound,
{
    rng.gen_range(0..bound)
}

} // verus!
