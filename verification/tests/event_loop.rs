use std::cell::RefCell;
use std::collections::VecDeque;
use std::rc::Rc;
use std::time::Duration;

use i_slint_renderer_software::SoftwareRenderer;
use slint::platform::WindowAdapter;
use slint_mipidsi_adapter::event_loop::run_event_loop;
use slint_mipidsi_adapter::pointer::first_event;
use slint_mipidsi_adapter::{
    LoopAction, LoopEvent, McuEventLoop, NoTouch, PointerButton, PointerEvent, PointerPosition,
    SlintWindow, StepError, TouchInput, TouchPoint, TouchTracker, TouchUpdate,
};

struct ScriptedTouch {
    samples: VecDeque<Result<Option<TouchPoint>, &'static str>>,
    reads: Rc<RefCell<u32>>,
}

impl TouchInput for ScriptedTouch {
    type Error = &'static str;

    fn read_touch(&mut self) -> Result<Option<TouchPoint>, Self::Error> {
        *self.reads.borrow_mut() += 1;
        self.samples.pop_front().unwrap_or(Ok(None))
    }
}

const INTERVAL: Duration = Duration::from_millis(10);

fn scripted(
    samples: Vec<Result<Option<TouchPoint>, &'static str>>,
) -> (McuEventLoop<ScriptedTouch>, Rc<RefCell<u32>>) {
    let reads = Rc::new(RefCell::new(0));
    let touch = ScriptedTouch { samples: samples.into(), reads: reads.clone() };
    let tracker = TouchTracker::new(touch, 320, 240);
    (McuEventLoop::new(SlintWindow::open().window, tracker, INTERVAL), reads)
}

fn draw_nothing(_: &SoftwareRenderer) -> Option<&'static str> {
    None
}

#[test]
fn transitions_become_window_events() {
    let position = PointerPosition::new(3, 4);
    let button = PointerButton::Left;

    assert_eq!(first_event(TouchUpdate::Unchanged), None);
    assert_eq!(
        first_event(TouchUpdate::Pressed(position)),
        Some(PointerEvent::Pressed { position, button })
    );
    assert_eq!(
        first_event(TouchUpdate::Moved(position)),
        Some(PointerEvent::Moved { position })
    );
    assert_eq!(
        first_event(TouchUpdate::Released(position)),
        Some(PointerEvent::Released { position, button })
    );
}

#[test]
fn a_step_reads_one_sample_and_returns_the_interval() {
    let (mut event_loop, reads) =
        scripted(vec![Ok(Some(TouchPoint::new(1, 2))), Ok(Some(TouchPoint::new(2, 2))), Ok(None)]);

    for count in 1..=4 {
        assert_eq!(event_loop.step(draw_nothing).unwrap(), INTERVAL);
        assert_eq!(*reads.borrow(), count);
    }
}

#[test]
fn a_failed_read_ends_the_step_before_drawing() {
    let (mut event_loop, _) = scripted(vec![Err("bus"), Ok(None)]);
    event_loop.view().handle().request_redraw();
    let mut drawn = false;

    let result = event_loop.step(|_: &SoftwareRenderer| -> Option<&'static str> {
        drawn = true;
        None
    });

    assert!(matches!(result, Err(StepError::Touch("bus"))));
    assert!(!drawn);
    assert_eq!(event_loop.step(draw_nothing).unwrap(), INTERVAL);
}

#[test]
fn a_window_is_drawn_only_if_it_needs_to_be() {
    let (mut event_loop, _) = scripted(vec![]);
    let mut draws = 0;
    let mut step = |event_loop: &mut McuEventLoop<ScriptedTouch>| {
        event_loop
            .step(|_: &SoftwareRenderer| -> Option<&'static str> {
                draws += 1;
                None
            })
            .unwrap();
        draws
    };

    assert_eq!(step(&mut event_loop), 0);
    event_loop.view().handle().request_redraw();
    assert_eq!(step(&mut event_loop), 1);
    assert_eq!(step(&mut event_loop), 1);
}

#[test]
fn a_display_error_ends_the_step() {
    let (mut event_loop, _) = scripted(vec![]);
    event_loop.view().handle().request_redraw();

    let result = event_loop.step(|_: &SoftwareRenderer| Some("display"));

    assert!(matches!(result, Err(StepError::Display("display"))));
}

#[test]
fn a_timer_shortens_the_wait() {
    let (mut event_loop, _) = scripted(vec![]);
    let timer = slint::Timer::default();

    timer.start(slint::TimerMode::SingleShot, Duration::from_millis(4), || {});
    assert_eq!(event_loop.step(draw_nothing).unwrap(), Duration::from_millis(4));
    timer.start(slint::TimerMode::SingleShot, Duration::from_millis(40), || {});
    assert_eq!(event_loop.step(draw_nothing).unwrap(), INTERVAL);
    timer.stop();
    assert_eq!(event_loop.next_wait(), INTERVAL);
}

#[test]
fn events_are_dispatched_to_a_window_without_a_component() {
    let (mut event_loop, _) = scripted(vec![]);
    let position = PointerPosition::new(1, 1);

    assert!(event_loop.dispatch_update(TouchUpdate::Unchanged).is_ok());
    assert!(event_loop.dispatch_update(TouchUpdate::Pressed(position)).is_ok());
    assert!(event_loop.dispatch_update(TouchUpdate::Moved(position)).is_ok());
    assert!(event_loop.dispatch_update(TouchUpdate::Released(position)).is_ok());
}

#[test]
fn a_window_without_a_component_is_not_visible() {
    let tracker = TouchTracker::new(NoTouch, 320, 240);
    let event_loop = McuEventLoop::new(SlintWindow::open().window, tracker, INTERVAL);

    assert!(!event_loop.is_running());
}

#[test]
fn a_display_only_loop_steps() {
    let tracker = TouchTracker::new(NoTouch, 320, 240);
    let mut event_loop = McuEventLoop::new(SlintWindow::open().window, tracker, Duration::ZERO);

    assert_eq!(event_loop.step(draw_nothing).unwrap(), Duration::ZERO);
}

#[test]
fn shared_handles_belong_to_one_window() {
    let opened = SlintWindow::open();
    let other = SlintWindow::open();
    let view = opened.window.view();

    assert!(Rc::ptr_eq(&view.handle(), &opened.window.view().handle()));
    assert!(!Rc::ptr_eq(&view.handle(), &other.window.view().handle()));
    assert!(!view.is_visible());
    assert!(Rc::ptr_eq(&view.handle(), &opened.sizer.give_up().view().handle()));
}

#[test]
fn a_resized_window_has_that_size() {
    let opened = SlintWindow::open();

    let settled = opened.sizer.resize(320, 240);

    let size = slint::PhysicalSize::new(320, 240);
    assert_eq!(settled.view().handle().size(), size);
    assert_eq!(opened.window.view().handle().size(), size);
}

#[test]
fn a_window_without_a_size_is_left_alone() {
    let settled = SlintWindow::open().sizer.give_up();

    assert_eq!(
        settled.view().handle().size(),
        slint::PhysicalSize::new(0, 0)
    );
}

#[test]
fn a_blocking_loop_steps_while_the_window_is_visible() {
    let wait = Duration::from_millis(1);

    assert!(matches!(
        run_event_loop::<&str>(LoopEvent::Started),
        LoopAction::CheckVisibility
    ));
    assert!(matches!(
        run_event_loop::<&str>(LoopEvent::Visibility(true)),
        LoopAction::Step
    ));
    assert!(matches!(
        run_event_loop::<&str>(LoopEvent::Stepped(Ok(wait))),
        LoopAction::Wait(d) if d == wait
    ));
    assert!(matches!(
        run_event_loop::<&str>(LoopEvent::Waited),
        LoopAction::CheckVisibility
    ));
    assert!(matches!(
        run_event_loop::<&str>(LoopEvent::Visibility(false)),
        LoopAction::Return(Ok(()))
    ));
}

#[test]
fn a_blocking_loop_does_what_stepping_does() {
    let turns = [
        (true, Ok(3)),
        (true, Ok(0)),
        (true, Ok(7)),
        (false, Ok(1)),
        (true, Err("unreached")),
    ];

    let mut stepped = Vec::new();
    for (visible, step) in turns {
        stepped.push(format!("visible {visible}"));
        if !visible {
            break;
        }
        stepped.push(format!("step {step:?}"));
        let wait = step.unwrap();
        if wait != 0 {
            stepped.push(format!("wait {wait}"));
        }
    }

    let mut blocked = Vec::new();
    let mut turn = 0;
    let mut event: LoopEvent<&str> = LoopEvent::Started;
    loop {
        event = match run_event_loop(event) {
            LoopAction::CheckVisibility => {
                blocked.push(format!("visible {}", turns[turn].0));
                LoopEvent::Visibility(turns[turn].0)
            }
            LoopAction::Step => {
                let step: Result<u64, &str> = turns[turn].1;
                turn += 1;
                blocked.push(format!("step {step:?}"));
                LoopEvent::Stepped(step.map(Duration::from_millis))
            }
            LoopAction::Wait(wait) => {
                blocked.push(format!("wait {}", wait.as_millis()));
                LoopEvent::Waited
            }
            LoopAction::Return(result) => {
                assert_eq!(result, Ok(()));
                break;
            }
        };
    }

    assert_eq!(blocked, stepped);
}

#[test]
fn a_blocking_loop_does_not_wait_for_no_time() {
    assert!(matches!(
        run_event_loop::<&str>(LoopEvent::Stepped(Ok(Duration::ZERO))),
        LoopAction::CheckVisibility
    ));
}

#[test]
fn a_blocking_loop_ends_with_the_error_of_a_step() {
    assert!(matches!(
        run_event_loop(LoopEvent::Stepped(Err("bus"))),
        LoopAction::Return(Err("bus"))
    ));
}
