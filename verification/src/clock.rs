//! Points in time, as the queues order by them.

use vstd::prelude::*;

verus! {

/// A point in time: whole seconds since 1970-01-01 00:00:00 UTC and the
/// nanoseconds since the last whole second.
#[derive(Debug, Clone, Copy, PartialEq, Eq, Structural, Hash)]
pub struct Timestamp {
    pub secs: i64,
    pub nanos: u32,
}

impl Timestamp {
    /// `self` is strictly earlier than `other`.
    pub open spec fn earlier(self, other: Timestamp) -> bool {
        self.secs < other.secs || (self.secs == other.secs && self.nanos < other.nanos)
    }

    /// Whether `self` is strictly earlier than `other`.
    pub fn is_before(&self, other: &Timestamp) -> (before: bool)
        ensures
            before == self.earlier(*other),
    {
        self.secs < other.secs || (self.secs == other.secs && self.nanos < other.nanos)
    }

    /// The current time by the machine's clock, as a timestamp in normal form.
    pub fn now() -> (t: Timestamp)
        ensures
            t.is_normal(),
    {
        utc_now()
    }

    /// The nanoseconds are less than a whole second. On timestamps of this
    /// form `earlier` is the order of the points in time that they stand for.
    pub open spec fn is_normal(self) -> bool {
        self.nanos < 1_000_000_000
    }
}

/// Reads the clock with `chrono::Utc::now` and takes the reading apart with
/// `DateTime::timestamp` and `DateTime::timestamp_subsec_nanos`.
///
/// The seconds depend on the machine's clock, and nothing is promised of
/// them. The nanoseconds are below one second: `Utc::now` makes its value
/// from the fractional part of a `std::time::Duration`, which is less than
/// one billion, and the two getters hand back what the value was made from.
/// `Utc::now` panics if the clock is set before 1970.
#[verifier::external_body]
fn utc_now() -> (t: Timestamp)
    ensures
        t.is_normal(),
{
    let now = chrono::Utc::now();
    Timestamp { secs: now.timestamp(), nanos: now.timestamp_subsec_nanos() }
}

} // verus!
