//! The source of chance that drives an agent's turns.
//!
//! Each agent owns a handle to the thread-local generator of the `rand`
//! crate. Nothing is known of a draw beyond its range, so every contract that
//! rests on one holds for whatever value comes back.

use rand::rngs::ThreadRng;
use rand::Rng;
use vstd::prelude::*;

verus! {

/// The handle to `rand`'s thread-local generator, carried as an opaque value.
#[verifier::external_type_specification]
#[verifier::external_body]
pub struct ExThreadRng(rand::rngs::ThreadRng);

/// `rand::thread_rng`: hands out a handle to the calling thread's generator.
/// Nothing is claimed of the handle.
pub assume_specification[ rand::thread_rng ]() -> ThreadRng
;

/// `Rng::gen_range` on the half-open range `low..high`: some integer that is
/// at least `low` and less than `high`. The call panics on an empty range,
/// which the precondition excludes.
#[verifier::external_body]
pub(crate) fn draw_between(rng: &mut ThreadRng, low: i64, high: i64) -> (roll: i64)
    requires
        low < high,
    ensures
        low <= roll < high,
{
    rng.gen_range(low..high)
}

/// `Rng::gen::<bool>`: either truth value. Nothing is claimed of which.
#[verifier::external_body]
pub(crate) fn draw_coin(rng: &mut ThreadRng) -> (heads: bool) {
    rng.gen::<bool>()
}

} // verus!
