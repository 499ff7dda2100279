//! The wall clock, read through `chrono`.
use vstd::prelude::*;

verus! {

/// Relies on `DateTime<Utc>: From<SystemTime>` (with
/// `DateTime::timestamp_millis`): the current time in milliseconds since the
/// Unix epoch. A clock set before the epoch gives a negative value rather
/// than a panic. Nothing is promised of the value; it may go backwards
/// between two calls.
#[verifier::external_body]
pub(crate) fn now_millis() -> (r: i64) {
    chrono::DateTime::<chrono::Utc>::from(std::time::SystemTime::now()).timestamp_millis()
}

} // verus!
