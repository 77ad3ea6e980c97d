//! Reading the system clock. Each reading depends on when it is taken, so
//! nothing is stated of the values these give.

use vstd::prelude::*;

verus! {

/// Whole seconds since the Unix epoch, from
/// `std::time::SystemTime::now().duration_since(UNIX_EPOCH)`; 0 when the
/// clock reads earlier than the epoch.
#[verifier::external_body]
pub(crate) fn unix_seconds_now() -> u64 {
    std::time::SystemTime::now().duration_since(std::time::UNIX_EPOCH).map(|d| d.as_secs()).unwrap_or(0)
}

/// Milliseconds since the Unix epoch, from
/// `std::time::SystemTime::now().duration_since(UNIX_EPOCH)`; 0 when the
/// clock reads earlier than the epoch.
#[verifier::external_body]
pub(crate) fn unix_millis_now() -> u128 {
    std::time::SystemTime::now().duration_since(std::time::UNIX_EPOCH).map(|d| d.as_millis()).unwrap_or(0)
}

/// Nanoseconds since the Unix epoch, from
/// `std::time::SystemTime::now().duration_since(UNIX_EPOCH)`; 0 when the
/// clock reads earlier than the epoch.
#[verifier::external_body]
pub(crate) fn unix_nanos_now() -> u128 {
    std::time::SystemTime::now().duration_since(std::time::UNIX_EPOCH).map(|d| d.as_nanos()).unwrap_or(0)
}

} // verus!
