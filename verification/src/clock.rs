//! Timestamps.

use vstd::prelude::*;

verus! {

/// A point in time: whole seconds since the Unix epoch, and the nanoseconds
/// past that second.
///
/// The library never interprets a timestamp; it only records when something
/// was created or last touched and carries that value along.
#[derive(Clone, Copy, Debug, PartialEq, Eq, Structural)]
pub struct Timestamp {
    pub secs: i64,
    pub nanos: u32,
}

/// Calls `chrono::Utc::now` and splits the instant into seconds and
/// nanoseconds. Nothing is promised about the value: it is whatever the
/// system clock says. The call does not return if the clock stands before
/// the year 1970.
#[verifier::external_body]
pub(crate) fn now() -> Timestamp {
    let t = chrono::Utc::now();
    Timestamp { secs: t.timestamp(), nanos: t.timestamp_subsec_nanos() }
}

} // verus!
