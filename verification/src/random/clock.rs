//! The wall clock, read as the seed of a generator that need not repeat itself.

use std::time::Duration;
use std::time::SystemTime;
use std::time::SystemTimeError;
use vstd::prelude::*;

verus! {

/// `std::time::SystemTime`, a reading of the system clock. Nothing is known of
/// what a value holds.
#[verifier::external_type_specification]
#[verifier::external_body]
pub struct ExSystemTime(SystemTime);

/// `std::time::SystemTimeError`, which `SystemTime::duration_since` returns when
/// the second reading is the later one. Nothing is known of what a value holds.
#[verifier::external_type_specification]
#[verifier::external_body]
pub struct ExSystemTimeError(SystemTimeError);

/// `SystemTime::now` reads the system clock. Nothing is claimed of the reading.
pub assume_specification[ SystemTime::now ]() -> (now: SystemTime);

/// `SystemTimeError::duration` gives the distance between the two readings
/// that were compared. Nothing is claimed of its size.
pub assume_specification[ SystemTimeError::duration ](this: &SystemTimeError) -> (gap: Duration);

/// `Duration::as_micros` gives a duration in whole microseconds. Nothing is
/// claimed of the number.
pub assume_specification[ Duration::as_micros ](this: &Duration) -> (micros: u128);

/// Calls `SystemTime::duration_since` with `std::time::UNIX_EPOCH` as the
/// earlier reading. Either outcome is possible: a clock may be set to a time
/// before the epoch.
#[verifier::external_body]
fn since_unix_epoch(reading: &SystemTime) -> (elapsed: Result<Duration, SystemTimeError>) {
    reading.duration_since(std::time::UNIX_EPOCH)
}

/// The seed that a count of microseconds gives: its low 64 bits.
pub fn seed_from_micros(micros: u128) -> (seed: u64)
    ensures
        seed == micros % 0x1_0000_0000_0000_0000,
{
    assert(micros & 0xffff_ffff_ffff_ffff == micros % 0x1_0000_0000_0000_0000) by (bit_vector);
    (micros & 0xffff_ffff_ffff_ffff) as u64
}

/// The seed that the present reading of the system clock gives: the
/// microseconds between the Unix epoch and the reading, through
/// `seed_from_micros`. A clock set before the epoch gives its distance from
/// it. Nothing can be said of the reading, and so nothing of the seed.
pub(crate) fn micros_from_epoch() -> (micros: u64) {
    let now = SystemTime::now();
    let distance: u128 = match since_unix_epoch(&now) {
        Ok(elapsed) => elapsed.as_micros(),
        Err(behind) => behind.duration().as_micros(),
    };
    seed_from_micros(distance)
}

} // verus!
