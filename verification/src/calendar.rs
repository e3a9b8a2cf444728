//! Calendar instants: what a calendar date-time says of a point in time, and
//! the conversions between it and a timestamp.

use crate::timestamp::Timestamp;
use chrono::{DateTime, Utc};
use vstd::prelude::*;
use vstd::std_specs::convert::FromSpecImpl;

verus! {

/// The time zone in which a calendar instant is presented. It does not
/// change the instant.
#[derive(Clone, Copy, PartialEq, Eq, Structural, Debug)]
pub enum Zone {
    /// Coordinated universal time.
    Utc,
    /// The zone of the machine that presents the instant.
    Local,
    /// Some fixed offset from UTC that the date-time carries itself.
    Fixed,
}

/// A calendar date-time reduced to the instant it names: the whole seconds
/// since the Unix epoch, the nanoseconds since the last second boundary
/// (one second or more only within a leap second), and the presentation zone.
#[derive(Clone, Copy, PartialEq, Eq, Structural, Debug)]
pub struct CalendarInstant {
    pub seconds: i64,
    pub nanoseconds: u32,
    pub zone: Zone,
}

/// Epoch seconds of the first second of the earliest calendar year.
pub const MIN_CALENDAR_SECONDS: i64 = -8_334_601_228_800;

/// Epoch seconds of the last second of the latest calendar year.
pub const MAX_CALENDAR_SECONDS: i64 = 8_210_266_876_799;

/// Whether the calendar has a date-time for this pair: the seconds fall in a
/// calendar year, and the nanoseconds stay below one second, or below two in
/// the last second of a minute (a leap second).
pub open spec fn representable(seconds: i64, nanoseconds: u32) -> bool {
    &&& MIN_CALENDAR_SECONDS <= seconds <= MAX_CALENDAR_SECONDS
    &&& (nanoseconds < 1_000_000_000 || (nanoseconds < 2_000_000_000 && (seconds as int) % 60
        == 59))
}

impl CalendarInstant {
    /// The Unix epoch itself, in UTC.
    pub open spec fn epoch() -> CalendarInstant {
        CalendarInstant { seconds: 0, nanoseconds: 0, zone: Zone::Utc }
    }

    /// Whether the calendar has this instant.
    pub open spec fn wf(self) -> bool {
        representable(self.seconds, self.nanoseconds)
    }

    /// The same instant presented in another zone.
    pub open spec fn in_zone(self, zone: Zone) -> CalendarInstant {
        CalendarInstant { zone, ..self }
    }

    /// The same instant presented in another zone.
    pub fn with_zone(self, zone: Zone) -> (r: CalendarInstant)
        ensures
            r == self.in_zone(zone),
    {
        CalendarInstant { seconds: self.seconds, nanoseconds: self.nanoseconds, zone }
    }
}

/// `chrono::Utc::now`, read through `DateTime::timestamp` and
/// `DateTime::timestamp_subsec_nanos`. The clock decides the value; of every
/// value it holds that it is built from a duration since the epoch, so the
/// seconds are not negative, the nanoseconds stay below one second, and the
/// calendar has the instant.
#[verifier::external_body]
fn utc_now() -> (r: CalendarInstant)
    ensures
        r.wf(),
        r.seconds >= 0,
        r.nanoseconds < 1_000_000_000,
        r.zone == Zone::Utc,
{
    let now = Utc::now();
    CalendarInstant {
        seconds: now.timestamp(),
        nanoseconds: now.timestamp_subsec_nanos(),
        zone: Zone::Utc,
    }
}

/// `chrono::DateTime::from_timestamp`, read through `DateTime::timestamp`
/// and `DateTime::timestamp_subsec_nanos`. It answers with a date-time
/// exactly for the representable pairs, and that date-time reports the same
/// seconds and nanoseconds back.
#[verifier::external_body]
fn utc_from_timestamp(seconds: i64, nanoseconds: u32) -> (r: Option<CalendarInstant>)
    ensures
        r == if representable(seconds, nanoseconds) {
            Some(CalendarInstant { seconds, nanoseconds, zone: Zone::Utc })
        } else {
            None
        },
{
    match DateTime::from_timestamp(seconds, nanoseconds) {
        Some(dt) => Some(
            CalendarInstant {
                seconds: dt.timestamp(),
                nanoseconds: dt.timestamp_subsec_nanos(),
                zone: Zone::Utc,
            },
        ),
        None => None,
    }
}

impl Timestamp {
    /// Whether the calendar has a date-time for this timestamp.
    pub open spec fn fits_calendar(self) -> bool {
        &&& MIN_CALENDAR_SECONDS <= self.seconds <= MAX_CALENDAR_SECONDS
        &&& (0 <= self.nanoseconds < 1_000_000_000 || (1_000_000_000 <= self.nanoseconds
            < 2_000_000_000 && (self.seconds as int) % 60 == 59))
    }

    /// The UTC calendar instant of the timestamp, or the epoch where the
    /// calendar has none.
    pub open spec fn to_calendar(self) -> CalendarInstant {
        if self.fits_calendar() {
            CalendarInstant {
                seconds: self.seconds,
                nanoseconds: self.nanoseconds as u32,
                zone: Zone::Utc,
            }
        } else {
            CalendarInstant::epoch()
        }
    }

    /// The timestamp of a calendar instant, whatever its zone.
    pub open spec fn of_calendar(c: CalendarInstant) -> Timestamp {
        Timestamp { seconds: c.seconds, nanoseconds: c.nanoseconds as i32 }
    }

    /// The current instant of the system clock.
    pub fn new() -> (r: Timestamp)
        ensures
            r.in_range(),
            r.seconds >= 0,
            r.fits_calendar(),
    {
        let now = utc_now();
        Timestamp::from(now)
    }

    /// The timestamp as a UTC calendar instant; the epoch where the calendar
    /// cannot hold it.
    pub fn datetime(&self) -> (r: CalendarInstant)
        ensures
            r == self.to_calendar(),
            r.wf(),
    {
        let nanoseconds: u32 = self.nanoseconds as u32;
        proof {
            let n: i32 = self.nanoseconds;
            assert(n < 0 ==> (n as u32) >= 0x8000_0000u32) by (bit_vector);
            assert(n >= 0 ==> (n as u32) == n) by (bit_vector);
        }
        match utc_from_timestamp(self.seconds, nanoseconds) {
            Some(c) => c,
            None => {
                let fallback = utc_from_timestamp(0, 0);
                fallback.unwrap()
            },
        }
    }

    /// The same instant as `datetime`, presented in the local zone.
    pub fn local_datetime(&self) -> (r: CalendarInstant)
        ensures
            r == self.to_calendar().in_zone(Zone::Local),
            r.wf(),
    {
        self.datetime().with_zone(Zone::Local)
    }
}

impl From<CalendarInstant> for Timestamp {
    fn from(c: CalendarInstant) -> (r: Timestamp) {
        Timestamp { seconds: c.seconds, nanoseconds: c.nanoseconds as i32 }
    }
}

impl FromSpecImpl<CalendarInstant> for Timestamp {
    open spec fn obeys_from_spec() -> bool {
        true
    }

    open spec fn from_spec(c: CalendarInstant) -> Timestamp {
        Timestamp::of_calendar(c)
    }
}

impl From<Timestamp> for CalendarInstant {
    fn from(ts: Timestamp) -> (r: CalendarInstant) {
        ts.datetime()
    }
}

impl FromSpecImpl<Timestamp> for CalendarInstant {
    open spec fn obeys_from_spec() -> bool {
        true
    }

    open spec fn from_spec(ts: Timestamp) -> CalendarInstant {
        ts.to_calendar()
    }
}

/// A timestamp that the calendar can hold comes back unchanged from its
/// calendar instant, in either zone: every timestamp with nanoseconds below
/// one second and seconds within the calendar's years, among others.
pub proof fn lemma_calendar_round_trip(ts: Timestamp)
    requires
        ts.fits_calendar(),
    ensures
        Timestamp::of_calendar(ts.to_calendar()) == ts,
        Timestamp::of_calendar(ts.to_calendar().in_zone(Zone::Local)) == ts,
        ts.to_calendar().wf(),
{
}

/// Where the calendar cannot hold a timestamp, its calendar instant is the
/// epoch, and the timestamp of that is the empty one.
pub proof fn lemma_calendar_fallback(ts: Timestamp)
    requires
        !ts.fits_calendar(),
    ensures
        ts.to_calendar() == CalendarInstant::epoch(),
        Timestamp::of_calendar(ts.to_calendar()) == Timestamp::empty(),
{
}

/// The timestamp of a calendar instant that the calendar has lies within the
/// calendar's range, and its calendar instant is the same instant in UTC.
pub proof fn lemma_calendar_instant_round_trip(c: CalendarInstant)
    requires
        c.wf(),
    ensures
        Timestamp::of_calendar(c).fits_calendar(),
        Timestamp::of_calendar(c).to_calendar() == c.in_zone(Zone::Utc),
{
}

} // verus!
