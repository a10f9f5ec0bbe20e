//! Points in time and the fixed lifetime of a session.

use vstd::prelude::*;

verus! {

/// A point in time, counted in nanoseconds since the Unix epoch (UTC).
#[derive(Debug, Clone, Copy, PartialEq, Eq, Hash, Structural)]
pub struct Timestamp(pub i128);

/// How long a session stays valid after it is issued or extended: one hour.
pub const SESSION_DURATION_NANOS: i128 = 3_600_000_000_000;

/// Smallest value that the system clock can report.
pub const CLOCK_MIN_NANOS: i128 = -9_223_372_036_854_775_808_000_000_000;

/// Largest value that the system clock can report.
pub const CLOCK_MAX_NANOS: i128 = 9_223_372_036_854_775_807_999_999_999;

impl Timestamp {
    /// Whether a session lifetime can be added to this instant without
    /// leaving the range of the representation.
    pub open spec fn can_start_session(self) -> bool {
        self.0 + SESSION_DURATION_NANOS <= i128::MAX
    }

    /// The instant one session lifetime after this one.
    pub open spec fn session_end(self) -> Timestamp {
        Timestamp((self.0 + SESSION_DURATION_NANOS) as i128)
    }

    /// Whether this instant lies strictly after `other`.
    pub open spec fn is_after(self, other: Timestamp) -> bool {
        self.0 > other.0
    }

    /// The current time in UTC. The clock only reports instants to which a
    /// session lifetime can be added.
    pub fn now() -> (t: Timestamp)
        ensures
            t.can_start_session(),
    {
        Timestamp(system_unix_nanos())
    }

    /// Whether a session can start at this instant.
    pub fn starts_session(self) -> (ok: bool)
        ensures
            ok == self.can_start_session(),
    {
        self.0 <= i128::MAX - SESSION_DURATION_NANOS
    }

    /// Adds the session lifetime to this instant.
    pub fn plus_session_duration(self) -> (end: Timestamp)
        requires
            self.can_start_session(),
        ensures
            end == self.session_end(),
    {
        Timestamp(self.0 + SESSION_DURATION_NANOS)
    }

    /// Strict comparison of two instants.
    pub fn later_than(self, other: Timestamp) -> (r: bool)
        ensures
            r == self.is_after(other),
    {
        self.0 > other.0
    }
}

/// Reads the system clock through `time::OffsetDateTime::now_utc` and converts
/// the reading with `unix_timestamp_nanos`. That conversion multiplies a
/// 64-bit count of seconds by 10^9 and adds a nanosecond part below 10^9, so
/// the result lies between the two clock bounds. Nothing else is claimed of
/// the reading.
#[verifier::external_body]
fn system_unix_nanos() -> (nanos: i128)
    ensures
        CLOCK_MIN_NANOS <= nanos <= CLOCK_MAX_NANOS,
{
    time::OffsetDateTime::now_utc().unix_timestamp_nanos()
}

} // verus!
