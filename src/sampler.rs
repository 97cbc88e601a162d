use crate::time::{local_now, local_now_rounded, ClockTime, NANOS_PER_SECOND};
use vstd::prelude::*;

verus! {

/// The granularity, in seconds, of the time that the clock shows.
pub const SAMPLE_UNIT_SECONDS: i64 = 1;

/// The token that names no timer.
pub const INVALID_TOKEN: u64 = 0;

/// Nanoseconds from a time whose sub-second part is `nanosecond` to the next
/// whole-second boundary; a time on the boundary waits a full second.
pub open spec fn wake_delay(nanosecond: nat) -> nat {
    (NANOS_PER_SECOND - nanosecond % (NANOS_PER_SECOND as nat)) as nat
}

/// Nanoseconds left until the next whole second, from a sampled sub-second
/// part. The result is never zero and never above one second; a leap second's
/// part (one second or more) counts from the start of the leap second.
pub fn next_wake_delay_nanos(nanosecond: u32) -> (r: u32)
    ensures
        r == wake_delay(nanosecond as nat),
        0 < r <= NANOS_PER_SECOND,
        nanosecond == 0 ==> r == NANOS_PER_SECOND,
        nanosecond < NANOS_PER_SECOND ==> r == NANOS_PER_SECOND - nanosecond,
{
    NANOS_PER_SECOND - nanosecond % NANOS_PER_SECOND
}

/// What reaches the clock's controller from the event loop.
#[derive(Clone, Copy, Debug, PartialEq, Eq, Structural)]
pub enum ClockEvent {
    /// The window has been shown: the first timer is due.
    WindowConnected,
    /// A timer has fired, with its token.
    Timer(u64),
    /// Anything else.
    Other,
}

/// Keeps one one-shot timer armed at a time, each due at the next
/// whole-second boundary, and re-arms it when it fires.
#[derive(Clone, Copy, Debug, PartialEq, Eq, Structural)]
pub struct LocalClockController {
    /// The token of the timer most recently requested, or `INVALID_TOKEN`.
    pub timer_token: u64,
}

impl LocalClockController {
    /// Whether `event` calls for a new timer: the window has just been
    /// shown, or the timer most recently requested has fired. A stale token
    /// is ignored.
    pub open spec fn wants_timer(self, event: ClockEvent) -> bool {
        match event {
            ClockEvent::WindowConnected => true,
            ClockEvent::Timer(id) => id == self.timer_token,
            ClockEvent::Other => false,
        }
    }

    /// A controller with no timer requested yet.
    pub fn new() -> (r: LocalClockController)
        ensures
            r.timer_token == INVALID_TOKEN,
    {
        LocalClockController { timer_token: INVALID_TOKEN }
    }

    /// Nanoseconds from now until the next whole second of local time.
    pub fn get_timer_interval() -> (r: u32)
        ensures
            0 < r <= NANOS_PER_SECOND,
    {
        let now = local_now();
        next_wake_delay_nanos(now.nanosecond)
    }

    /// The timer to request on `event`, given the sub-second part of the time
    /// now: its delay in nanoseconds, or `None` where no timer is due.
    pub fn timer_for(&self, event: &ClockEvent, nanosecond: u32) -> (r: Option<u32>)
        ensures
            r is Some <==> self.wants_timer(*event),
            r matches Some(d) ==> d == wake_delay(nanosecond as nat),
    {
        let due = match event {
            ClockEvent::WindowConnected => true,
            ClockEvent::Timer(id) => *id == self.timer_token,
            ClockEvent::Other => false,
        };
        if due {
            Some(next_wake_delay_nanos(nanosecond))
        } else {
            None
        }
    }

    /// The timer to request on `event`, timed from the local clock now: its
    /// delay in nanoseconds, or `None` where no timer is due.
    pub fn event(&self, event: &ClockEvent) -> (r: Option<u32>)
        ensures
            r is Some <==> self.wants_timer(*event),
            r matches Some(d) ==> 0 < d <= NANOS_PER_SECOND,
    {
        let now = local_now();
        self.timer_for(event, now.nanosecond)
    }

    /// Records the token of the timer just requested; only that timer is
    /// acted on when it fires.
    pub fn timer_requested(&mut self, token: u64)
        ensures
            final(self).timer_token == token,
    {
        self.timer_token = token;
    }
}

/// Whether a face showing `shown` must be drawn again for `sampled`: exactly
/// when the two differ at one-second granularity.
pub fn needs_redraw(shown: &ClockTime, sampled: &ClockTime) -> (r: bool)
    ensures
        r == !shown.same_second(*sampled),
{
    !shown.same(sampled)
}

/// The local time now, as the face first shows it (not rounded).
pub fn initial_time() -> (r: ClockTime)
    ensures
        r.wf(),
{
    local_now()
}

/// The local time now, rounded to the nearest second, or `None` where the
/// clock reads a time that cannot be rounded. A sampled time lies on a whole
/// second.
pub fn sample_time() -> (r: Option<ClockTime>)
    ensures
        r matches Some(t) ==> t.wf() && t.nanosecond_spec() == 0,
{
    local_now_rounded(SAMPLE_UNIT_SECONDS)
}

} // verus!
