//! The random draws that seed an ensemble.
//!
//! The three items of this module are taken on trust: they describe the
//! crate `rand`, which is not verified here. Everything that is drawn is an
//! integer, the raw value of a scalar, and all that is claimed of a draw is
//! the range it lies in.

use rand::Rng;
use vstd::prelude::*;

verus! {

/// `rand::rngs::ThreadRng`, the handle to the random number generator of a
/// thread. Nothing is known of its state.
#[verifier::external_type_specification]
#[verifier::external_body]
pub struct ExThreadRng(rand::rngs::ThreadRng);

/// `rand::thread_rng` hands out a handle to the generator of the calling
/// thread, which the system seeds when the thread first asks for it. It
/// takes no argument, and nothing is claimed of the handle.
pub assume_specification[ rand::thread_rng ]() -> rand::rngs::ThreadRng;

/// One draw of `Rng::gen_range` on the half-open range `low..high`.
///
/// The range must not be empty: on an empty range the call panics. The draw
/// lies in the range; which of its values comes out is not fixed, so two
/// calls on the same range may differ.
#[verifier::external_body]
pub(crate) fn draw_between(rng: &mut rand::rngs::ThreadRng, low: i128, high: i128) -> (r: i128)
    requires
        low < high,
    ensures
        low <= r < high,
{
    rng.gen_range(low..high)
}

} // verus!
