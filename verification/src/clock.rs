//! The wall clock, in whole seconds since the Unix epoch.

use std::time::{SystemTime, UNIX_EPOCH};
use vstd::prelude::*;

verus! {

/// Reads `std::time::SystemTime::now` and measures it from
/// `std::time::UNIX_EPOCH` in whole seconds; `None` when the clock stands
/// before the epoch. Trusted, and nothing is claimed of the value: two
/// readings may differ in either direction.
#[verifier::external_body]
fn seconds_since_epoch() -> Option<u64> {
    match SystemTime::now().duration_since(UNIX_EPOCH) {
        Ok(elapsed) => Some(elapsed.as_secs()),
        Err(_) => None,
    }
}

/// The current time in seconds since the Unix epoch. A clock that stands
/// before the epoch reads as the epoch itself, 0.
pub fn get_current_timestamp() -> u64 {
    timestamp_of(seconds_since_epoch())
}

/// The timestamp that a clock reading stands for: the seconds read, or 0,
/// the epoch itself, for a clock that stands before the epoch.
pub fn timestamp_of(reading: Option<u64>) -> (timestamp: u64)
    ensures
        timestamp == match reading {
            Some(seconds) => seconds,
            None => 0,
        },
{
    match reading {
        Some(seconds) => seconds,
        None => 0,
    }
}

} // verus!
