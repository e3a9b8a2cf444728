//! The timestamp value and its conversions to and from plain epoch seconds
//! and elapsed durations.

use std::time::Duration;
use vstd::prelude::*;
use vstd::std_specs::convert::FromSpecImpl;

verus! {

/// An instant as whole seconds since 1970-01-01T00:00:00Z and the nanoseconds
/// within that second. The pair of zeros stands for "no timestamp".
#[derive(Clone, Copy, PartialEq, Eq, Structural, Debug)]
pub struct Timestamp {
    pub seconds: i64,
    pub nanoseconds: i32,
}

/// The whole seconds that `Duration::as_secs` reports for a duration.
pub uninterp spec fn duration_secs(d: Duration) -> u64;

/// The nanoseconds below one second that `Duration::subsec_nanos` reports.
pub uninterp spec fn duration_subsec_nanos(d: Duration) -> u32;

/// `Duration::as_secs`: the whole seconds of the duration, a function of the
/// duration alone.
pub assume_specification[ Duration::as_secs ](d: &Duration) -> (r: u64)
    ensures
        r == duration_secs(*d),
;

/// `Duration::subsec_nanos`: the fractional part in nanoseconds, a function
/// of the duration alone and always below one second.
pub assume_specification[ Duration::subsec_nanos ](d: &Duration) -> (r: u32)
    ensures
        r == duration_subsec_nanos(*d),
        r < 1_000_000_000,
;

impl Timestamp {
    /// The timestamp with both fields zero.
    pub open spec fn empty() -> Timestamp {
        Timestamp { seconds: 0, nanoseconds: 0 }
    }

    /// Whether the nanoseconds lie within one second.
    pub open spec fn in_range(self) -> bool {
        0 <= self.nanoseconds < 1_000_000_000
    }

    /// Whether this is the "no timestamp" value.
    pub open spec fn spec_is_empty(&self) -> bool {
        self.seconds == 0 && self.nanoseconds == 0
    }

    /// The timestamp of a count of whole epoch seconds.
    pub open spec fn of_seconds(seconds: i64) -> Timestamp {
        Timestamp { seconds, nanoseconds: 0 }
    }

    /// The whole epoch seconds of the timestamp, without its nanoseconds.
    pub open spec fn to_seconds(self) -> i64 {
        self.seconds
    }

    /// The timestamp that copies a duration field for field.
    pub open spec fn of_duration(d: Duration) -> Timestamp {
        Timestamp {
            seconds: duration_secs(d) as i64,
            nanoseconds: duration_subsec_nanos(d) as i32,
        }
    }

    /// True exactly for the pair of zeros.
    #[verifier::when_used_as_spec(spec_is_empty)]
    pub fn is_empty(&self) -> (r: bool)
        ensures
            r == self.spec_is_empty(),
            r == (*self == Timestamp::empty()),
    {
        self.seconds == 0 && self.nanoseconds == 0
    }

}

impl Default for Timestamp {
    fn default() -> (r: Timestamp)
        ensures
            r == Timestamp::empty(),
    {
        Timestamp { seconds: 0, nanoseconds: 0 }
    }
}

impl From<i64> for Timestamp {
    fn from(seconds: i64) -> (r: Timestamp) {
        Timestamp { seconds, nanoseconds: 0 }
    }
}

impl FromSpecImpl<i64> for Timestamp {
    open spec fn obeys_from_spec() -> bool {
        true
    }

    open spec fn from_spec(seconds: i64) -> Timestamp {
        Timestamp::of_seconds(seconds)
    }
}

impl From<Timestamp> for i64 {
    fn from(ts: Timestamp) -> (r: i64) {
        ts.seconds
    }
}

impl FromSpecImpl<Timestamp> for i64 {
    open spec fn obeys_from_spec() -> bool {
        true
    }

    open spec fn from_spec(ts: Timestamp) -> i64 {
        ts.to_seconds()
    }
}

impl From<Duration> for Timestamp {
    fn from(d: Duration) -> (r: Timestamp) {
        Timestamp { seconds: d.as_secs() as i64, nanoseconds: d.subsec_nanos() as i32 }
    }
}

impl FromSpecImpl<Duration> for Timestamp {
    open spec fn obeys_from_spec() -> bool {
        true
    }

    open spec fn from_spec(d: Duration) -> Timestamp {
        Timestamp::of_duration(d)
    }
}

/// Going to whole epoch seconds and back keeps the seconds and leaves no
/// nanoseconds, whatever the nanoseconds were.
pub proof fn lemma_epoch_seconds_round_trip(ts: Timestamp)
    ensures
        Timestamp::of_seconds(ts.to_seconds()).seconds == ts.seconds,
        Timestamp::of_seconds(ts.to_seconds()).nanoseconds == 0,
{
}

/// A duration's seconds land in the timestamp unchanged where they fit the
/// signed field, and so do its nanoseconds where they stay below one second.
pub proof fn lemma_duration_copy(d: Duration)
    ensures
        duration_secs(d) <= i64::MAX ==> Timestamp::of_duration(d).seconds == duration_secs(d),
        duration_subsec_nanos(d) < 1_000_000_000 ==> Timestamp::of_duration(d).nanoseconds
            == duration_subsec_nanos(d) && Timestamp::of_duration(d).in_range(),
{
}

} // verus!
