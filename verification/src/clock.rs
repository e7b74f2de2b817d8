//! The system clock, as far as the generator needs it.
//!
//! The calls into `std::time` are taken on trust, and nothing is claimed of
//! what they return. What is made of a reading is verified.

use crate::error::SnowflakeError;
use vstd::prelude::*;

verus! {

/// `std::time::SystemTime`, a reading of the system clock. Nothing is known
/// of what a value holds.
#[verifier::external_type_specification]
#[verifier::external_body]
pub struct ExSystemTime(std::time::SystemTime);

/// `std::time::SystemTimeError`, which `SystemTime::duration_since` returns
/// when the second instant is later than the first. Nothing is known of what
/// a value holds.
#[verifier::external_type_specification]
#[verifier::external_body]
pub struct ExSystemTimeError(std::time::SystemTimeError);

/// `SystemTime::now` reads the system clock. Nothing is claimed of the
/// reading: two of them may come in any order.
pub assume_specification[ std::time::SystemTime::now ]() -> (now: std::time::SystemTime);

/// `Duration::as_millis` gives the whole milliseconds in a duration. Nothing
/// is claimed of the number.
pub assume_specification[ core::time::Duration::as_millis ](
    elapsed: &core::time::Duration,
) -> (millis: u128);

/// Calls `SystemTime::duration_since` on `instant` with
/// `std::time::UNIX_EPOCH` as the earlier instant: the time from the Unix
/// epoch to `instant`, or the error if `instant` lies before it. Nothing is
/// claimed of which of the two comes back.
#[verifier::external_body]
pub(crate) fn since_unix_epoch(instant: &std::time::SystemTime) -> (elapsed: Result<
    core::time::Duration,
    std::time::SystemTimeError,
>) {
    instant.duration_since(std::time::UNIX_EPOCH)
}

/// Takes a count of milliseconds since the Unix epoch for a timestamp. One
/// that does not fit in 64 bits is a clock fault, not a smaller timestamp.
pub fn timestamp_from_millis(millis: u128) -> (result: Result<u64, SnowflakeError>)
    ensures
        match result {
            Ok(timestamp) => timestamp == millis,
            Err(e) => millis > u64::MAX && e == SnowflakeError::ClockFault,
        },
{
    if millis <= u64::MAX as u128 {
        Ok(millis as u64)
    } else {
        Err(SnowflakeError::ClockFault)
    }
}

} // verus!
