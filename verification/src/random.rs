//! The source of random numbers.
use rand::Rng;
use vstd::prelude::*;

verus! {

/// Draws an integer from `low` up to, but not including, `high`, by
/// `rand::thread_rng().gen_range(low, high)`.
///
/// This contract is trusted, not proved. It claims what the documentation of
/// `Rng::gen_range` gives: the value lies in the half-open range from `low`
/// to `high`, and the call must not be made unless `low < high`, since
/// `gen_range` panics on an empty range. Nothing is claimed about which value
/// of the range comes back, and two calls may return different values.
///
/// Two things lie outside what a contract can say. The generator of a thread
/// is seeded from the operating system when the thread first asks for it,
/// and `thread_rng` panics if the system gives it no seed. And `gen_range`
/// draws until a draw yields an unbiased value, which ends with probability
/// one.
#[verifier::external_body]
fn random_in_range(low: i32, high: i32) -> (value: i32)
    requires
        low < high,
    ensures
        low <= value < high,
{
    rand::thread_rng().gen_range(low, high)
}

/// Draws a byte, each of the 256 values being possible.
pub(crate) fn random_byte() -> u8 {
    let value: i32 = random_in_range(0, 256);
    value as u8
}

} // verus!
