//! The one source of chance in the game.

use rand::Rng;
use vstd::prelude::*;

verus! {

/// Draws a number from `low..high`: a call of `rand::Rng::gen_range` on the
/// generator that `rand::thread_rng` returns.
///
/// Trusted, not proved. As `rand` documents `gen_range`, the number lies in
/// the range, the lower bound included and the upper one excluded. Nothing
/// more is claimed: which number comes is left open, and two calls with the
/// same bounds may differ. `gen_range` panics on an empty range, which the
/// precondition keeps out.
#[verifier::external_body]
pub(crate) fn random_in_range(low: u32, high: u32) -> (n: u32)
    requires
        low < high,
    ensures
        low <= n < high,
{
    rand::thread_rng().gen_range(low..high)
}

} // verus!
