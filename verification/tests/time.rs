use std::cell::Cell;
use std::time::Duration;

use slint_mipidsi_adapter::time::{elapsed_between, next_wait};
use slint_mipidsi_adapter::{McuClock, McuRuntime};

struct FakeRuntime<'a> {
    now: &'a Cell<u64>,
    waits: Vec<Duration>,
}

impl McuRuntime for FakeRuntime<'_> {
    fn now(&self) -> Duration {
        Duration::from_millis(self.now.get())
    }

    fn wait(&mut self, duration: Duration) {
        self.waits.push(duration);
        self.now.set(self.now.get() + 1);
    }
}

#[test]
fn the_shorter_wait_wins() {
    let interval = Duration::from_millis(10);

    assert_eq!(
        next_wait(Some(Duration::from_millis(4)), interval),
        Duration::from_millis(4)
    );
    assert_eq!(next_wait(Some(Duration::from_millis(40)), interval), interval);
    assert_eq!(next_wait(Some(interval), interval), interval);
    assert_eq!(next_wait(None, interval), interval);
    assert_eq!(next_wait(Some(Duration::ZERO), interval), Duration::ZERO);
    assert_eq!(
        next_wait(Some(Duration::from_secs(1)), Duration::ZERO),
        Duration::ZERO
    );
    assert_eq!(
        next_wait(Some(Duration::MAX), Duration::from_nanos(1)),
        Duration::from_nanos(1)
    );
}

#[test]
fn elapsed_time_starts_at_zero_and_follows_the_clock() {
    let now = Cell::new(500);
    let mut clock = McuClock::start(FakeRuntime { now: &now, waits: Vec::new() });

    assert_eq!(clock.duration_since_start(), Duration::ZERO);
    now.set(530);
    assert_eq!(clock.duration_since_start(), Duration::from_millis(30));
    clock.wait(Duration::from_millis(7));
    assert_eq!(clock.duration_since_start(), Duration::from_millis(31));
}

#[test]
fn a_clock_that_runs_backwards_shows_no_elapsed_time() {
    let now = Cell::new(500);
    let clock = McuClock::start(FakeRuntime { now: &now, waits: Vec::new() });

    now.set(499);
    assert_eq!(clock.duration_since_start(), Duration::ZERO);
}

#[test]
fn elapsed_time_is_a_difference() {
    let start = Duration::new(3, 900);

    assert_eq!(
        elapsed_between(start, Duration::new(5, 1_000)),
        Duration::new(2, 100)
    );
    assert_eq!(elapsed_between(start, Duration::new(3, 899)), Duration::ZERO);
}

#[test]
fn a_runtime_may_be_a_trait_object() {
    let now = Cell::new(12);
    let mut runtime = FakeRuntime { now: &now, waits: Vec::new() };
    let runtime: &mut dyn McuRuntime = &mut runtime;

    runtime.wait(Duration::ZERO);

    assert_eq!(runtime.now(), Duration::from_millis(13));
}
