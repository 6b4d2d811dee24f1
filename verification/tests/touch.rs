use std::collections::VecDeque;
use std::convert::Infallible;

use slint_mipidsi_adapter::{
    NoTouch, PointerPosition, TouchInput, TouchPoint, TouchTracker, TouchUpdate,
};

struct FakeTouch {
    samples: VecDeque<Option<TouchPoint>>,
}

impl TouchInput for FakeTouch {
    type Error = Infallible;

    fn read_touch(&mut self) -> Result<Option<TouchPoint>, Self::Error> {
        Ok(self.samples.pop_front().flatten())
    }
}

#[test]
fn touch_samples_become_pointer_transitions() {
    let touch = FakeTouch {
        samples: [
            None,
            Some(TouchPoint::new(10, 20)),
            Some(TouchPoint::new(11, 21)),
            Some(TouchPoint::new(11, 21)),
            None,
        ]
        .into(),
    };
    let mut tracker = TouchTracker::new(touch, 320, 240);

    assert_eq!(tracker.poll().unwrap(), TouchUpdate::Unchanged);
    assert_eq!(
        tracker.poll().unwrap(),
        TouchUpdate::Pressed(PointerPosition::new(10, 20))
    );
    assert_eq!(
        tracker.poll().unwrap(),
        TouchUpdate::Moved(PointerPosition::new(11, 21))
    );
    assert_eq!(tracker.poll().unwrap(), TouchUpdate::Unchanged);
    assert_eq!(
        tracker.poll().unwrap(),
        TouchUpdate::Released(PointerPosition::new(11, 21))
    );
}

#[test]
fn touch_coordinates_are_clamped_to_the_display() {
    let touch = FakeTouch {
        samples: [Some(TouchPoint::new(u16::MAX, u16::MAX))].into(),
    };
    let mut tracker = TouchTracker::new(touch, 320, 240);

    assert_eq!(
        tracker.poll().unwrap(),
        TouchUpdate::Pressed(PointerPosition::new(319, 239))
    );
}

fn assert_copy_send_sync<T: Copy + Send + Sync>() {}

#[test]
fn public_types_are_send_free_and_no_std_friendly() {
    assert_copy_send_sync::<TouchPoint>();
    assert_copy_send_sync::<NoTouch>();
}

struct FlakyTouch {
    samples: VecDeque<Result<Option<TouchPoint>, &'static str>>,
}

impl TouchInput for FlakyTouch {
    type Error = &'static str;

    fn read_touch(&mut self) -> Result<Option<TouchPoint>, Self::Error> {
        self.samples.pop_front().unwrap_or(Ok(None))
    }
}

#[test]
fn a_failed_read_during_a_hold_causes_no_release() {
    let held = Some(TouchPoint::new(5, 6));
    let touch = FlakyTouch {
        samples: [Ok(held), Err("bus"), Ok(held), Ok(None)].into(),
    };
    let mut tracker = TouchTracker::new(touch, 100, 100);

    assert_eq!(
        tracker.poll(),
        Ok(TouchUpdate::Pressed(PointerPosition::new(5, 6)))
    );
    assert_eq!(tracker.poll(), Err("bus"));
    assert_eq!(tracker.poll(), Ok(TouchUpdate::Unchanged));
    assert_eq!(
        tracker.poll(),
        Ok(TouchUpdate::Released(PointerPosition::new(5, 6)))
    );
}

#[test]
fn a_lost_sample_during_a_hold_is_a_release_and_a_press() {
    let mut tracker = TouchTracker::new(NoTouch, 100, 100);
    let held = Some(TouchPoint::new(5, 6));
    let at = PointerPosition::new(5, 6);

    assert_eq!(tracker.apply_sample(held), TouchUpdate::Pressed(at));
    assert_eq!(tracker.apply_sample(None), TouchUpdate::Released(at));
    assert_eq!(tracker.apply_sample(held), TouchUpdate::Pressed(at));
}

#[test]
fn a_move_beyond_the_border_along_the_border_is_silent() {
    let mut tracker = TouchTracker::new(NoTouch, 320, 240);

    assert_eq!(
        tracker.apply_sample(Some(TouchPoint::new(100, 250))),
        TouchUpdate::Pressed(PointerPosition::new(100, 239))
    );
    assert_eq!(
        tracker.apply_sample(Some(TouchPoint::new(100, 260))),
        TouchUpdate::Unchanged
    );
    assert_eq!(
        tracker.apply_sample(Some(TouchPoint::new(101, 260))),
        TouchUpdate::Moved(PointerPosition::new(101, 239))
    );
}

#[test]
fn an_empty_display_has_one_position() {
    let mut tracker = TouchTracker::new(NoTouch, 0, 0);

    assert_eq!(
        tracker.apply_sample(Some(TouchPoint::new(7, 9))),
        TouchUpdate::Pressed(PointerPosition::new(0, 0))
    );
}

#[test]
fn a_huge_display_is_reached_as_far_as_coordinates_go() {
    let mut tracker = TouchTracker::new(NoTouch, u32::MAX, 65_536);

    assert_eq!(
        tracker.apply_sample(Some(TouchPoint::new(u16::MAX, u16::MAX))),
        TouchUpdate::Pressed(PointerPosition::new(u16::MAX, u16::MAX))
    );
}

#[test]
fn no_touch_never_reports_a_contact() {
    let mut tracker = TouchTracker::new(NoTouch, 320, 240);

    for _ in 0..3 {
        assert_eq!(tracker.poll(), Ok(TouchUpdate::Unchanged));
        assert_eq!(tracker.read_position(), Ok(None));
    }
    assert_eq!(TouchPoint::default(), TouchPoint::new(0, 0));
}

#[test]
fn a_position_is_read_on_the_display() {
    let touch = FakeTouch {
        samples: [Some(TouchPoint::new(400, 3))].into(),
    };
    let mut tracker = TouchTracker::new(touch, 320, 240);

    assert_eq!(
        tracker.read_position(),
        Ok(Some(PointerPosition::new(319, 3)))
    );
}

struct AnyTouch(Box<dyn TouchInput<Error = Infallible>>);

impl TouchInput for AnyTouch {
    type Error = Infallible;

    fn read_touch(&mut self) -> Result<Option<TouchPoint>, Self::Error> {
        self.0.read_touch()
    }
}

#[test]
fn a_touch_input_may_be_a_trait_object() {
    let touch = FakeTouch {
        samples: [Some(TouchPoint::new(1, 2))].into(),
    };
    let mut tracker = TouchTracker::new(AnyTouch(Box::new(touch)), 320, 240);

    assert_eq!(
        tracker.poll(),
        Ok(TouchUpdate::Pressed(PointerPosition::new(1, 2)))
    );
}
