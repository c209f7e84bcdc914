//! What only the running system can supply: the time and fresh identifiers.

use vstd::prelude::*;

verus! {

/// Reads the clock with `time::OffsetDateTime::now_utc` and returns its
/// `unix_timestamp`, in seconds. Nothing is known of the value.
#[verifier::external_body]
pub(crate) fn unix_now() -> i64 {
    time::OffsetDateTime::now_utc().unix_timestamp()
}

/// Reads the clock with `chrono::Utc::now` and returns its `timestamp`,
/// in seconds. Nothing is known of the value.
#[verifier::external_body]
pub(crate) fn utc_timestamp() -> i64 {
    chrono::Utc::now().timestamp()
}

/// Reads `std::time::SystemTime::now` and returns the milliseconds since
/// the Unix epoch, zero for a clock set before it. Nothing is known of the
/// value.
#[verifier::external_body]
pub(crate) fn system_time_ms() -> u64 {
    std::time::SystemTime::now().duration_since(std::time::UNIX_EPOCH).unwrap_or_default().as_millis() as u64
}

/// Draws a random identifier with `uuid::Uuid::new_v4` and returns its
/// hyphenated text. Nothing is known of the value.
#[verifier::external_body]
pub(crate) fn fresh_uuid() -> String {
    uuid::Uuid::new_v4().to_string()
}

} // verus!
