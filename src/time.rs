use chrono::{DurationRound, Local, TimeDelta, Timelike};
use vstd::prelude::*;

verus! {

/// Seconds in one day.
pub const SECONDS_PER_DAY: u32 = 86400;

/// Nanoseconds in one second.
pub const NANOS_PER_SECOND: u32 = 1_000_000_000;

/// A snapshot of the time of day.
///
/// `nanosecond` may run up to just under two seconds' worth, which marks a
/// leap second (the second field then stays at 59).
#[derive(Clone, Copy, Debug)]
pub struct ClockTime {
    pub hour: u32,
    pub minute: u32,
    pub second: u32,
    pub nanosecond: u32,
}

impl ClockTime {
    /// Every field within its range.
    pub open spec fn wf(self) -> bool {
        &&& self.hour < 24
        &&& self.minute < 60
        &&& self.second < 60
        &&& self.nanosecond < 2 * NANOS_PER_SECOND
    }

    pub open spec fn hour_spec(self) -> nat {
        self.hour as nat
    }

    pub open spec fn minute_spec(self) -> nat {
        self.minute as nat
    }

    pub open spec fn second_spec(self) -> nat {
        self.second as nat
    }

    pub open spec fn nanosecond_spec(self) -> nat {
        self.nanosecond as nat
    }

    /// Whole seconds elapsed since midnight.
    pub open spec fn seconds_from_midnight(self) -> nat {
        self.hour as nat * 3600 + self.minute as nat * 60 + self.second as nat
    }

    /// Equality at one-second granularity.
    pub open spec fn same_second(self, other: ClockTime) -> bool {
        &&& self.hour == other.hour
        &&& self.minute == other.minute
        &&& self.second == other.second
    }

    /// The time `hour:minute:second.nanosecond`, or `None` where a field is
    /// out of range.
    pub fn from_hms_nano(hour: u32, minute: u32, second: u32, nanosecond: u32) -> (r: Option<
        ClockTime,
    >)
        ensures
            r is Some <==> (hour < 24 && minute < 60 && second < 60 && nanosecond < 2
                * NANOS_PER_SECOND),
            r matches Some(t) ==> t.wf() && t.hour_spec() == hour && t.minute_spec() == minute
                && t.second_spec() == second && t.nanosecond_spec() == nanosecond,
    {
        if hour < 24 && minute < 60 && second < 60 && nanosecond < 2 * NANOS_PER_SECOND {
            Some(ClockTime { hour, minute, second, nanosecond })
        } else {
            None
        }
    }

    /// The time `hour:minute:second` on a whole second, or `None` where a
    /// field is out of range.
    pub fn from_hms(hour: u32, minute: u32, second: u32) -> (r: Option<ClockTime>)
        ensures
            r is Some <==> (hour < 24 && minute < 60 && second < 60),
            r matches Some(t) ==> t.wf() && t.hour_spec() == hour && t.minute_spec() == minute
                && t.second_spec() == second && t.nanosecond_spec() == 0,
    {
        ClockTime::from_hms_nano(hour, minute, second, 0)
    }

    pub fn hour(&self) -> (r: u32)
        ensures
            r == self.hour_spec(),
    {
        self.hour
    }

    pub fn minute(&self) -> (r: u32)
        ensures
            r == self.minute_spec(),
    {
        self.minute
    }

    pub fn second(&self) -> (r: u32)
        ensures
            r == self.second_spec(),
    {
        self.second
    }

    pub fn nanosecond(&self) -> (r: u32)
        ensures
            r == self.nanosecond_spec(),
    {
        self.nanosecond
    }

    /// Whole seconds elapsed since midnight, always below one day.
    pub fn num_seconds_from_midnight(&self) -> (r: u32)
        requires
            self.wf(),
        ensures
            r == self.seconds_from_midnight(),
            r < SECONDS_PER_DAY,
    {
        self.hour * 3600 + self.minute * 60 + self.second
    }

    /// Whether two times show the same second: hour, minute and second agree,
    /// whatever their sub-second parts.
    pub fn same(&self, other: &ClockTime) -> (r: bool)
        ensures
            r == self.same_second(*other),
            r == (self.hour_spec() == other.hour_spec() && self.minute_spec()
                == other.minute_spec() && self.second_spec() == other.second_spec()),
    {
        self.hour == other.hour && self.minute == other.minute && self.second == other.second
    }
}

/// Relies on chrono's `Local::now` for the current local time, and on the
/// `Timelike` getters of `DateTime<Local>` for its fields, whose documented
/// ranges are hours 0 to 23, minutes and seconds 0 to 59, and nanoseconds
/// below 2,000,000,000.
#[verifier::external_body]
pub(crate) fn local_now() -> (r: ClockTime)
    ensures
        r.wf(),
{
    let now = Local::now();
    ClockTime {
        hour: now.hour(),
        minute: now.minute(),
        second: now.second(),
        nanosecond: now.nanosecond(),
    }
}

/// Relies on chrono's `Local::now` for the current local time, rounded to the
/// nearest multiple of `unit_seconds` whole seconds by
/// `DurationRound::duration_round` (half a unit rounds up), and on the
/// `Timelike` getters for the fields of the result (ranges as above). The
/// rounded local time is a whole number of seconds, and a time zone's offset
/// is a whole number of seconds, so the result has no sub-second part. The
/// rounding fails only where the time lies beyond what a 64-bit count of
/// nanoseconds holds.
#[verifier::external_body]
pub(crate) fn local_now_rounded(unit_seconds: i64) -> (r: Option<ClockTime>)
    requires
        0 < unit_seconds <= SECONDS_PER_DAY,
    ensures
        r matches Some(t) ==> t.wf() && t.nanosecond == 0,
{
    Local::now().duration_round(TimeDelta::seconds(unit_seconds)).ok().map(
        |t| ClockTime {
            hour: t.hour(),
            minute: t.minute(),
            second: t.second(),
            nanosecond: t.nanosecond(),
        },
    )
}

} // verus!
