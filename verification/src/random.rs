//! Where randomness enters the engine: the generators of the `rand` crate,
//! reached through the two trusted functions of this module.

use rand::rngs::StdRng;
use rand::{Rng, SeedableRng};
use vstd::prelude::*;

verus! {

// The index below `bound` that the generator `StdRng` draws first after it
// has been made from `seed`. The generator is a cipher run on a key that is
// expanded from the seed, so the index depends on `seed` and `bound` alone.
pub uninterp spec fn seeded_index(seed: u64, bound: u32) -> u32;

/// Draws an index from `0..bound` with `rand::thread_rng().gen_range(0..bound)`.
///
/// Trusted, not proved: `gen_range` samples inside the half-open range it is
/// given, so the result is below `bound`; which index comes out is left open.
/// `gen_range` panics on an empty range, hence `bound > 0`.
#[verifier::external_body]
pub(crate) fn random_below(bound: usize) -> (index: usize)
    requires
        bound > 0,
    ensures
        index < bound,
{
    rand::thread_rng().gen_range(0..bound)
}

/// Draws an index from `0..bound` with a generator made for this one draw:
/// `StdRng::seed_from_u64(seed).gen_range(0..bound)`.
///
/// Trusted, not proved: the result is the index that [`seeded_index`] names,
/// the same for the same seed and bound wherever it is drawn, and it is
/// below `bound`, since `gen_range` samples inside the half-open range it
/// is given. `gen_range` panics on an empty range, hence `bound > 0`.
#[verifier::external_body]
pub(crate) fn draw_seeded(seed: u64, bound: u32) -> (index: u32)
    requires
        bound > 0,
    ensures
        index == seeded_index(seed, bound),
        index < bound,
{
    StdRng::seed_from_u64(seed).gen_range(0..bound)
}

} // verus!
