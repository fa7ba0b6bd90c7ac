//! Numbers drawn from the thread's random number generator.

use rand::Rng;
use vstd::prelude::*;

verus! {

/// Draws a number from `low..high` with `rand`'s `Rng::gen_range`, on the
/// generator that `rand::thread_rng` returns.
///
/// Believed, not proved: the number lies in the range asked for. `gen_range`
/// panics on an empty range, which the precondition excludes. Which number
/// comes is not said: two calls may differ.
#[verifier::external_body]
pub(crate) fn random_in_range(low: i32, high: i32) -> (n: i32)
    requires
        low < high,
    ensures
        low <= n < high,
{
    rand::thread_rng().gen_range(low..high)
}

/// Draws a byte with `rand`'s `Rng::gen`, on the generator that
/// `rand::thread_rng` returns. Nothing is known of the byte.
#[verifier::external_body]
pub(crate) fn random_byte() -> (n: u8) {
    rand::thread_rng().gen()
}

} // verus!
