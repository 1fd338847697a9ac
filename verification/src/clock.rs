//! The two things that the library takes from the machine rather than from its caller:
//! the wall clock and random numbers.

use vstd::prelude::*;

verus! {

/// `SystemTime::now`, as nanoseconds since the Unix epoch. Nothing is claimed of the
/// value: the clock may stand anywhere, and may step back between two calls.
#[verifier::external_body]
pub(crate) fn unix_time_nanos() -> (nanos: u128) {
    std::time::SystemTime::now().duration_since(std::time::UNIX_EPOCH).unwrap_or_default().as_nanos()
}

/// `fastrand::u32` over `0..bound`: some number below `bound`.
#[verifier::external_body]
pub(crate) fn random_below(bound: u32) -> (r: u32)
    requires
        bound > 0,
    ensures
        r < bound,
{
    fastrand::u32(..bound)
}

/// `fastrand::usize` over `0..len`: some index below `len`.
#[verifier::external_body]
pub(crate) fn random_index(len: usize) -> (r: usize)
    requires
        len > 0,
    ensures
        r < len,
{
    fastrand::usize(..len)
}

/// `fastrand::u64` over `1..`: some number that is not zero.
#[verifier::external_body]
pub(crate) fn random_nonzero() -> (r: u64)
    ensures
        r >= 1,
{
    fastrand::u64(1..)
}

/// The time in whole microseconds since the Unix epoch, as far as it fits in 64 bits.
pub fn current_time_micros() -> (micros: u64) {
    let nanos = unix_time_nanos();
    micros_of_nanos(nanos)
}

/// Nanoseconds in whole microseconds, cut to the low 64 bits.
pub open spec fn micros_of_nanos_spec(nanos: u128) -> u64 {
    ((nanos / 1000) % 0x1_0000_0000_0000_0000) as u64
}

/// Nanoseconds in whole microseconds, cut to the low 64 bits.
pub fn micros_of_nanos(nanos: u128) -> (micros: u64)
    ensures
        micros == micros_of_nanos_spec(nanos),
{
    ((nanos / 1000) % 0x1_0000_0000_0000_0000) as u64
}

/// Nanoseconds cut to the low 64 bits.
pub open spec fn low_nanos_spec(nanos: u128) -> u64 {
    (nanos % 0x1_0000_0000_0000_0000) as u64
}

/// Nanoseconds cut to the low 64 bits.
pub fn low_nanos(nanos: u128) -> (low: u64)
    ensures
        low == low_nanos_spec(nanos),
{
    (nanos % 0x1_0000_0000_0000_0000) as u64
}

} // verus!
