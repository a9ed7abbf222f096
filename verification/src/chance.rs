//! The one door to the random generator.

use vstd::prelude::*;

verus! {

/// Draws a number from `low..high` with `rand::Rng::gen_range` on the
/// thread's generator, `rand::thread_rng()`.
///
/// Nothing here is proved. What is claimed of the outside call is only that
/// the draw lies in the half-open range handed to it, as its documentation
/// says; two draws need not agree. `gen_range` panics on an empty range, so
/// `low < high` is required. The generator seeds itself from the operating
/// system on first use and panics if that source is unavailable.
#[verifier::external_body]
pub(crate) fn roll_between(low: u64, high: u64) -> (roll: u64)
    requires
        low < high,
    ensures
        low <= roll < high,
{
    rand::Rng::gen_range(&mut rand::thread_rng(), low..high)
}

} // verus!
