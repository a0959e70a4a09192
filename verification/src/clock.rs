//! Instants of the wall clock, as plain numbers.

use vstd::prelude::*;

verus! {

/// An instant in UTC: the whole seconds since the Unix epoch and the
/// nanoseconds past them.
#[derive(Debug, Clone, Copy, PartialEq, Eq, Structural)]
pub struct Timestamp {
    pub secs: i64,
    pub nanos: u32,
}

/// Reads the wall clock with `chrono::Utc::now` and hands the instant back as
/// seconds and nanoseconds. Nothing is claimed of the instant: it is whatever
/// the clock shows.
#[verifier::external_body]
pub(crate) fn utc_now() -> Timestamp {
    let now = chrono::Utc::now();
    Timestamp { secs: now.timestamp(), nanos: now.timestamp_subsec_nanos() }
}

} // verus!
