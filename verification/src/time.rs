//! Time: the board's clock, elapsed time, and how long the event loop may wait.

use core::time::Duration;
use vstd::prelude::*;

verus! {

/// The whole length of a duration, in nanoseconds: what `Duration::as_nanos` returns.
pub uninterp spec fn duration_nanos(duration: Duration) -> u128;

/// `core::time::Duration::as_nanos`: the total number of nanoseconds in a duration.
pub assume_specification[ Duration::as_nanos ](duration: &Duration) -> (nanos: u128)
    ensures
        nanos == duration_nanos(*duration),
;

/// `core::time::Duration::from_micros`: a duration of that many microseconds.
pub assume_specification[ Duration::from_micros ](micros: u64) -> (duration: Duration)
    ensures
        duration_nanos(duration) == micros * 1000,
;

/// `core::time::Duration::saturating_sub`: the difference of two durations, or zero where it
/// would be negative.
pub assume_specification[ Duration::saturating_sub ](
    duration: Duration,
    rhs: Duration,
) -> (difference: Duration)
    ensures
        duration_nanos(difference) == saturating_difference(
            duration_nanos(duration) as int,
            duration_nanos(rhs) as int,
        ),
;

/// `core::time::Duration::is_zero`: whether a duration spans no time.
pub assume_specification[ Duration::is_zero ](duration: &Duration) -> (zero: bool)
    ensures
        zero == (duration_nanos(*duration) == 0),
;

/// `a - b`, or zero where that is negative.
pub open spec fn saturating_difference(a: int, b: int) -> int {
    if a >= b {
        a - b
    } else {
        0
    }
}

/// Time and waiting operations required by the event loop.
///
/// `now` must use a monotonic clock. `wait` may busy-wait, arm a hardware timer and sleep, or
/// delegate to an RTOS. It must return no later than needed for the supplied duration;
/// returning early is valid and is useful when a touch interrupt wakes the MCU.
///
/// The library's contracts say of the clock and of a wait what the implementation's own contract
/// says of them, and assume nothing else.
pub trait McuRuntime {
    /// Returns a monotonically increasing timestamp from an arbitrary fixed epoch.
    fn now(&self) -> (timestamp: Duration);

    /// Waits for at most `duration`.
    fn wait(&mut self, duration: Duration);
}

/// Whether a runtime in this state may show `timestamp`, by what the implementation says.
pub open spec fn shows<RUNTIME: McuRuntime>(runtime: RUNTIME, timestamp: Duration) -> bool {
    RUNTIME::now.ensures((&runtime,), timestamp)
}

/// A runtime together with the time at which the platform was started.
pub struct McuClock<RUNTIME> {
    runtime: RUNTIME,
    started_at: Duration,
}

impl<RUNTIME> McuClock<RUNTIME> {
    /// The board's runtime.
    pub closed spec fn runtime(self) -> RUNTIME {
        self.runtime
    }

    /// The timestamp that was taken when the clock was started.
    pub closed spec fn started_at(self) -> Duration {
        self.started_at
    }
}

impl<RUNTIME: McuRuntime> McuClock<RUNTIME> {
    /// Starts a clock now.
    pub fn start(runtime: RUNTIME) -> (clock: Self)
        ensures
            clock.runtime() == runtime,
            shows(runtime, clock.started_at()),
            RUNTIME::now.ensures((&runtime,), clock.started_at()),
    {
        let started_at = runtime.now();
        McuClock { runtime, started_at }
    }

    /// Returns the time since the clock was started: zero where the runtime shows a time before
    /// the start.
    pub fn duration_since_start(&self) -> (elapsed: Duration)
        ensures
            exists|now: Duration| #[trigger]
                shows(self.runtime(), now) && duration_nanos(elapsed) == elapsed_nanos(
                    self.started_at(),
                    now,
                ),
            exists|now: Duration| #[trigger]
                RUNTIME::now.ensures((&self.runtime(),), now) && if duration_nanos(now)
                    >= duration_nanos(self.started_at()) {
                    duration_nanos(self.started_at()) + duration_nanos(elapsed) == duration_nanos(now)
                } else {
                    duration_nanos(elapsed) == 0
                },
    {
        let now = self.runtime.now();
        assert(shows(self.runtime(), now));
        assert(RUNTIME::now.ensures((&self.runtime(),), now));
        elapsed_between(self.started_at, now)
    }

    /// Waits for at most `duration`.
    pub fn wait(&mut self, duration: Duration)
        ensures
            exists|runtime: &mut RUNTIME| #[trigger]
                RUNTIME::wait.ensures((runtime, duration), ()) && *runtime == old(self).runtime()
                    && *final(runtime) == final(self).runtime(),
            final(self).started_at() == old(self).started_at(),
    {
        self.runtime.wait(duration);
    }
}

/// The nanoseconds from one timestamp to another, none where the second is the earlier one.
pub open spec fn elapsed_nanos(started_at: Duration, now: Duration) -> int {
    saturating_difference(duration_nanos(now) as int, duration_nanos(started_at) as int)
}

/// Returns the time from `started_at` to `now`, zero where `now` is the earlier one.
pub fn elapsed_between(started_at: Duration, now: Duration) -> (elapsed: Duration)
    ensures
        duration_nanos(elapsed) == elapsed_nanos(started_at, now),
        duration_nanos(now) >= duration_nanos(started_at) ==> duration_nanos(started_at)
            + duration_nanos(elapsed) == duration_nanos(now),
        duration_nanos(now) < duration_nanos(started_at) ==> duration_nanos(elapsed) == 0,
{
    now.saturating_sub(started_at)
}

/// The wait that a timer deadline and the poll interval allow: the shorter one.
pub open spec fn wait_for(timer: Option<Duration>, poll_interval: Duration) -> Duration {
    match timer {
        Some(duration) => if duration_nanos(duration) <= duration_nanos(poll_interval) {
            duration
        } else {
            poll_interval
        },
        None => poll_interval,
    }
}

/// Returns how long to wait when the nearest timer is due after `timer`, if there is one.
pub fn next_wait(timer: Option<Duration>, poll_interval: Duration) -> (wait: Duration)
    ensures
        wait == wait_for(timer, poll_interval),
        wait == poll_interval || timer == Some(wait),
        duration_nanos(wait) <= duration_nanos(poll_interval),
        timer matches Some(due) ==> duration_nanos(wait) <= duration_nanos(due),
{
    match timer {
        Some(duration) => {
            if duration.as_nanos() <= poll_interval.as_nanos() {
                duration
            } else {
                poll_interval
            }
        },
        None => poll_interval,
    }
}

/// The event loop never waits longer than the poll interval, nor past the nearest timer.
pub proof fn wait_is_bounded(timer: Option<Duration>, poll_interval: Duration)
    ensures
        duration_nanos(wait_for(timer, poll_interval)) <= duration_nanos(poll_interval),
        timer matches Some(duration) ==> duration_nanos(wait_for(timer, poll_interval))
            <= duration_nanos(duration),
        duration_nanos(wait_for(timer, poll_interval)) == duration_nanos(poll_interval) || (timer
            matches Some(duration) && wait_for(timer, poll_interval) == duration),
{
}

/// With a poll interval of zero the event loop never waits.
pub proof fn zero_interval_is_busy(timer: Option<Duration>, poll_interval: Duration)
    requires
        duration_nanos(poll_interval) == 0,
    ensures
        duration_nanos(wait_for(timer, poll_interval)) == 0,
{
}

/// The start and the elapsed time add up to the time that the runtime shows, unless that is before
/// the start, where no time has elapsed.
pub proof fn elapsed_time_adds_up(started_at: Duration, now: Duration)
    ensures
        duration_nanos(now) >= duration_nanos(started_at) ==> duration_nanos(started_at)
            + elapsed_nanos(started_at, now) == duration_nanos(now),
        duration_nanos(now) < duration_nanos(started_at) ==> elapsed_nanos(started_at, now) == 0,
{
}

/// Between two readings the elapsed time grows by exactly as much as the runtime's clock did.
pub proof fn elapsed_time_keeps_pace(started_at: Duration, earlier: Duration, later: Duration)
    requires
        duration_nanos(started_at) <= duration_nanos(earlier) <= duration_nanos(later),
    ensures
        elapsed_nanos(started_at, later) - elapsed_nanos(started_at, earlier) == duration_nanos(
            later,
        ) - duration_nanos(earlier),
{
}

/// Elapsed time starts at zero and never runs backwards while the runtime's clock does not.
pub proof fn elapsed_time_is_monotonic(started_at: Duration, earlier: Duration, later: Duration)
    requires
        duration_nanos(earlier) <= duration_nanos(later),
    ensures
        elapsed_nanos(started_at, started_at) == 0,
        elapsed_nanos(started_at, earlier) <= elapsed_nanos(started_at, later),
{
}

} // verus!
