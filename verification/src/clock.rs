//! The wall clock, read through `chrono`.

use vstd::prelude::*;

verus! {

/// A point in time in UTC: whole seconds since the Unix epoch and the
/// nanoseconds within that second.
#[derive(Clone, Copy, Debug, PartialEq, Eq, Structural)]
pub struct Timestamp {
    pub secs: i64,
    pub nanos: u32,
}

/// Reads the current time.
///
/// Trusted: calls `chrono::Utc::now` and splits the result with
/// `DateTime::timestamp` and `DateTime::timestamp_subsec_nanos`. The value
/// depends on the machine's clock, so the contract promises nothing about it.
#[verifier::external_body]
pub(crate) fn now() -> (t: Timestamp) {
    let t = chrono::Utc::now();
    Timestamp { secs: t.timestamp(), nanos: t.timestamp_subsec_nanos() }
}

} // verus!
