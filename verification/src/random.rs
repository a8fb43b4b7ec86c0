//! The random source: the thread-local generator of the `rand` crate.

use vstd::prelude::*;
use rand::Rng;

verus! {

/// Draws an index below `bound` with `rand::thread_rng().gen_range(0..bound)`.
/// Trusted: the draw lies in the range. Which index comes is chance, so nothing
/// more is promised, and two draws with one bound may differ. The generator
/// panics on an empty range, which `requires` leaves out; it does not return
/// where the system has no randomness to seed it with.
#[verifier::external_body]
pub(crate) fn random_below(bound: usize) -> (draw: usize)
    requires
        bound > 0,
    ensures
        draw < bound,
{
    rand::thread_rng().gen_range(0..bound)
}

} // verus!
