//! The one source of chance in the game.

use rand::Rng;
use vstd::prelude::*;

verus! {

/// Draws an integer from `low` up to, but not including, `high`.
///
/// Calls `rand::thread_rng().gen_range(low, high)`. Trusted, not proved: the
/// draw lies in the half-open range. `gen_range` panics where `low >= high`,
/// which the precondition rules out. Nothing is claimed about which value of
/// the range comes out.
#[verifier::external_body]
pub(crate) fn random_in_range(low: i32, high: i32) -> (drawn: i32)
    requires
        low < high,
    ensures
        low <= drawn < high,
{
    rand::thread_rng().gen_range(low, high)
}

} // verus!
