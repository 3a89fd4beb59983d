//! The one source of randomness of the library.

use rand::Rng;
use vstd::prelude::*;

verus! {

/// Draws a number from the half-open range `low..high` with
/// `rand::Rng::gen_range` on the generator of the calling thread.
///
/// Trusted, not proved: the number drawn is at least `low` and below `high`.
/// `gen_range` panics on an empty range, which `requires` leaves out. Which
/// number of the range comes is left open, as it has to be.
#[verifier::external_body]
pub(crate) fn uniform(low: u64, high: u64) -> (drawn: u64)
    requires
        low < high,
    ensures
        low <= drawn < high,
{
    rand::thread_rng().gen_range(low..high)
}

} // verus!
