//! The random source: the calling thread's generator of the `rand` crate.
//!
//! The first three items state what the library takes on trust from `rand`;
//! nothing is proved of them. `thread_draw` is verified against them.

use rand::rngs::ThreadRng;
use rand::{thread_rng, Rng};
use vstd::prelude::*;

verus! {

/// `rand::rngs::ThreadRng`, the handle to the calling thread's generator.
/// The verifier sees nothing inside it; it is only carried from
/// `rand::thread_rng` to the draw.
#[verifier::external_type_specification]
#[verifier::external_body]
pub struct ExThreadRng(rand::rngs::ThreadRng);

/// `rand::thread_rng` returns a handle to the calling thread's generator,
/// which is seeded from the operating system on first use. Nothing is claimed
/// of the handle. Should the operating system refuse the seed, `rand` panics:
/// that failure of the host is outside what this library proves.
pub assume_specification[ rand::thread_rng ]() -> (rng: rand::rngs::ThreadRng)
;

/// `rand::Rng::gen_range` on the inclusive range `low..=high` of `u8`.
///
/// It refuses an empty range by panicking, hence the precondition. For a
/// range that is not empty it returns `low` plus an offset below the number
/// of values in the range, so the result lies in the range, both ends
/// included. Which value comes out is up to the generator: two calls with the
/// same bounds may differ, and nothing is claimed of the distribution.
///
/// The thread's generator reseeds itself from the operating system from time
/// to time, and `rand` panics where that fails. No precondition can leave
/// that out: like the first seeding, it is a failure of the host, outside
/// what this library proves.
#[verifier::external_body]
fn draw_between(rng: &mut ThreadRng, low: u8, high: u8) -> (v: u8)
    requires
        low <= high,
    ensures
        low <= v <= high,
{
    rng.gen_range(low..=high)
}

/// The calling thread's generator as a source: the answer to one request for
/// a value from `low` to `high`, both included.
///
/// The range must hold a value. Two calls with the same bounds may differ.
pub fn thread_draw(low: u8, high: u8) -> (v: u8)
    requires
        low <= high,
    ensures
        low <= v <= high,
{
    let mut rng = thread_rng();
    draw_between(&mut rng, low, high)
}

} // verus!
