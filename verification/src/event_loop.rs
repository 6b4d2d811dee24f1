//! The event loop: one step at a time, or until the window closes.

use core::time::Duration;
use std::rc::Rc;

use i_slint_renderer_software::{MinimalSoftwareWindow, SoftwareRenderer};
use slint::platform::PlatformError;
use vstd::prelude::*;

use crate::error::StepError;
use crate::platform::{seen_as, PlatformCall, WindowView};
use crate::pointer::{events_of, first_event, PointerButton, PointerEvent};
use crate::render::frame_result;
use crate::time::{duration_nanos, next_wait, wait_for};
use crate::touch::{TouchInput, TouchPoint, TouchState, TouchTracker, TouchUpdate};
use crate::window::{SlintWindow, TouchWindow};

verus! {

/// The calls that dispatch events which the window accepts, one after the other.
pub open spec fn accepted(events: Seq<PointerEvent>) -> Seq<PlatformCall> {
    Seq::new(events.len(), |i: int| PlatformCall::Dispatch(events[i], None))
}

/// The calls that dispatch events up to the one at `n`, which the window refuses with `error`.
pub open spec fn refused_at(events: Seq<PointerEvent>, n: int, error: PlatformError) -> Seq<
    PlatformCall,
> {
    accepted(events.take(n)).push(PlatformCall::Dispatch(events[n], Some(error)))
}

/// How the touch part of a step ends, given the sample that was read.
pub open spec fn touch_dispatched<TE, DE>(
    before: TouchState,
    sample: Result<Option<TouchPoint>, TE>,
    after: TouchState,
    result: Result<(), StepError<TE, DE>>,
    calls: Seq<PlatformCall>,
    calls_after: Seq<PlatformCall>,
) -> bool {
    let read = calls.push(PlatformCall::ReadTouch);
    match sample {
        Err(error) => {
            &&& result == Err::<(), StepError<TE, DE>>(StepError::Touch(error))
            &&& after == before
            &&& calls_after == read
        },
        Ok(point) => {
            let events = events_of(before.update(point));
            &&& after == before.after(point)
            &&& match result {
                Ok(_) => calls_after == read + accepted(events),
                Err(StepError::Platform(error)) => exists|n: int|
                    0 <= n < events.len() && calls_after == read + #[trigger] refused_at(
                        events,
                        n,
                        error,
                    ),
                Err(_) => false,
            }
        },
    }
}

/// Whether drawing with `draw` may return `drawn`: nothing where the window needs no redraw.
pub open spec fn may_return<DE, F: FnOnce(&SoftwareRenderer) -> Option<DE>>(
    draw: F,
    drawn: Option<Option<DE>>,
) -> bool {
    drawn matches Some(error) ==> exists|renderer: &SoftwareRenderer| #[trigger]
        draw.ensures((renderer,), error)
}

/// How rendering ends, with what drawing returned if the window needed it: the error of this frame.
pub open spec fn rendered<TE, DE>(drawn: Option<Option<DE>>) -> Result<(), StepError<TE, DE>> {
    match drawn {
        Some(Some(error)) => Err(StepError::Display(error)),
        _ => Ok(()),
    }
}

/// The calls of a step: timers are updated and the touch input is read before anything else.
pub open spec fn step_calls(rest: Seq<PlatformCall>) -> Seq<PlatformCall> {
    seq![PlatformCall::UpdateTimers, PlatformCall::ReadTouch] + rest
}

/// How a step ends, given the sample that was read and what drawing returned, if the window needed
/// it: the error of the frame, if any.
///
/// After the sample was read, the events that announce it are dispatched in order, the window is
/// drawn, and the nearest timer is asked for. The first failure ends the step. `calls` are the
/// calls that the step made.
pub open spec fn stepped<TE, DE>(
    before: TouchState,
    poll_interval: Duration,
    sample: Result<Option<TouchPoint>, TE>,
    drawn: Option<Option<DE>>,
    after: TouchState,
    result: Result<Duration, StepError<TE, DE>>,
    calls: Seq<PlatformCall>,
) -> bool {
    match sample {
        Err(error) => {
            &&& result == Err::<Duration, StepError<TE, DE>>(StepError::Touch(error))
            &&& after == before
            &&& calls == step_calls(seq![])
        },
        Ok(point) => {
            let events = events_of(before.update(point));
            &&& after == before.after(point)
            &&& match result {
                Ok(wait) => {
                    &&& drawn matches Some(error) ==> error is None
                    &&& exists|timer: Option<Duration>| #[trigger]
                        wait_for(timer, poll_interval) == wait && calls == step_calls(
                            accepted(events) + seq![
                                PlatformCall::Draw(drawn is Some),
                                PlatformCall::QueryTimer(timer),
                            ],
                        )
                },
                Err(StepError::Display(error)) => {
                    &&& drawn == Some(Some(error))
                    &&& calls == step_calls(accepted(events) + seq![PlatformCall::Draw(true)])
                },
                Err(StepError::Platform(error)) => exists|n: int|
                    0 <= n < events.len() && calls == step_calls(
                        #[trigger] refused_at(events, n, error),
                    ),
                Err(StepError::Touch(_)) => false,
            }
        },
    }
}

/// A cooperative, step-based Slint event loop.
///
/// The handle is deliberately single-threaded, like Slint on a microcontroller.
pub struct McuEventLoop<TOUCH> {
    operated: TouchWindow<TOUCH>,
    poll_interval: Duration,
}

impl<TOUCH> McuEventLoop<TOUCH> {
    /// The window that the loop serves.
    pub closed spec fn window(self) -> Rc<MinimalSoftwareWindow> {
        self.operated.window()
    }

    /// The platform calls that the loop made, in order.
    pub closed spec fn calls(self) -> Seq<PlatformCall> {
        self.operated.calls()
    }

    /// What is remembered of the touch samples.
    pub closed spec fn touch(self) -> TouchState {
        self.operated.tracker()@
    }

    /// The touch input that is sampled.
    pub closed spec fn input(self) -> TOUCH {
        self.operated.tracker().input()
    }

    /// The longest time between two steps.
    pub closed spec fn poll_interval(self) -> Duration {
        self.poll_interval
    }

    /// Whether another loop serves the same window at the same interval.
    pub open spec fn serves_as(self, other: Self) -> bool {
        &&& self.window() == other.window()
        &&& self.poll_interval() == other.poll_interval()
    }

    /// Creates an event loop for a window.
    pub fn new(
        window: SlintWindow,
        touch: TouchTracker<TOUCH>,
        poll_interval: Duration,
    ) -> (event_loop: Self)
        ensures
            event_loop.window() == window.window(),
            event_loop.calls() == window.calls(),
            event_loop.touch() == touch@,
            event_loop.input() == touch.input(),
            event_loop.poll_interval() == poll_interval,
    {
        McuEventLoop { operated: TouchWindow::new(window, touch), poll_interval }
    }

    /// Returns whether the Slint window is currently visible.
    #[must_use]
    pub fn is_running(&self) -> (running: bool)
        ensures
            seen_as(self.window(), running),
    {
        self.operated.view().is_visible()
    }

    /// Returns a handle to the window for Slint and for asking whether it is visible.
    pub fn view(&self) -> (view: WindowView)
        ensures
            view.window() == self.window(),
    {
        self.operated.view()
    }

    /// Announces a touch transition to the window. The first refusal ends it.
    pub fn dispatch_update(&mut self, update: TouchUpdate) -> (result: Result<(), PlatformError>)
        ensures
            final(self).serves_as(*old(self)),
            final(self).touch() == old(self).touch(),
            final(self).input() == old(self).input(),
            match result {
                Ok(_) => final(self).calls() == old(self).calls() + accepted(events_of(update)),
                Err(error) => exists|n: int|
                    0 <= n < events_of(update).len() && final(self).calls() == old(self).calls()
                        + #[trigger] refused_at(events_of(update), n, error),
            },
            final(self).window() == old(self).window(),
            final(self).poll_interval() == old(self).poll_interval(),
            result is Ok ==> final(self).calls() == (match update {
                TouchUpdate::Unchanged => old(self).calls(),
                TouchUpdate::Pressed(position) => old(self).calls().push(
                    PlatformCall::Dispatch(
                        PointerEvent::Pressed { position, button: PointerButton::Left },
                        None,
                    ),
                ),
                TouchUpdate::Moved(position) => old(self).calls().push(
                    PlatformCall::Dispatch(PointerEvent::Moved { position }, None),
                ),
                TouchUpdate::Released(position) => old(self).calls().push(
                    PlatformCall::Dispatch(
                        PointerEvent::Released { position, button: PointerButton::Left },
                        None,
                    ),
                ).push(PlatformCall::Dispatch(PointerEvent::Exited, None)),
            }),
            result matches Err(error) ==> final(self).calls().last() matches PlatformCall::Dispatch(
                _,
                Some(refusal),
            ) && refusal == error,
            result is Err ==> {
                let n = old(self).calls().len();
                &&& update !is Unchanged
                &&& final(self).calls().len() == n + 1 || {
                    &&& final(self).calls().len() == n + 2
                    &&& final(self).calls().last()->Dispatch_0 == PointerEvent::Exited
                    &&& update matches TouchUpdate::Released(position)
                    &&& final(self).calls()[n as int] == PlatformCall::Dispatch(
                        PointerEvent::Released { position, button: PointerButton::Left },
                        None,
                    )
                }
            },
            result is Err && final(self).calls().len() == old(self).calls().len() + 1 ==>
                final(self).calls().last()->Dispatch_0 == (match update {
                TouchUpdate::Pressed(position) => PointerEvent::Pressed {
                    position,
                    button: PointerButton::Left,
                },
                TouchUpdate::Moved(position) => PointerEvent::Moved { position },
                TouchUpdate::Released(position) => PointerEvent::Released {
                    position,
                    button: PointerButton::Left,
                },
                TouchUpdate::Unchanged => PointerEvent::Exited,
            }),
    {
        let ghost events = events_of(update);
        let ghost before = self.calls();
        let event = match first_event(update) {
            None => {
                assert(before + accepted(events) =~= before);
                return Ok(());
            },
            Some(event) => event,
        };
        match self.operated.dispatch(event) {
            Ok(()) => {},
            Err(error) => {
                assert(self.calls() =~= before + refused_at(events, 0, error));
                return Err(error);
            },
        }
        if let PointerEvent::Released { .. } = event {
            match self.operated.dispatch(PointerEvent::Exited) {
                Ok(()) => {},
                Err(error) => {
                    assert(self.calls() =~= before + refused_at(events, 1, error));
                    return Err(error);
                },
            }
        }
        assert(self.calls() =~= before + accepted(events));
        Ok(())
    }

    /// Draws the window with `draw` if it needs to be redrawn. `draw` returns the error that the
    /// display gave, if any.
    pub fn render<TE, DE, F: FnOnce(&SoftwareRenderer) -> Option<DE>>(&mut self, draw: F) -> (result:
        Result<(), StepError<TE, DE>>)
        requires
            forall|renderer: &SoftwareRenderer| #[trigger] draw.requires((renderer,)),
        ensures
            final(self).serves_as(*old(self)),
            final(self).touch() == old(self).touch(),
            final(self).input() == old(self).input(),
            exists|drawn: Option<Option<DE>>| #[trigger]
                may_return(draw, drawn) && final(self).calls() == old(self).calls().push(
                    PlatformCall::Draw(drawn is Some),
                ) && result == rendered::<TE, DE>(drawn),
            final(self).window() == old(self).window(),
            final(self).poll_interval() == old(self).poll_interval(),
            final(self).calls().len() == old(self).calls().len() + 1,
            match result {
                Ok(_) => final(self).calls().last() == PlatformCall::Draw(false) || (
                final(self).calls().last() == PlatformCall::Draw(true) && exists|
                    renderer: &SoftwareRenderer,
                | #[trigger] draw.ensures((renderer,), None)),
                Err(StepError::Display(error)) => final(self).calls().last() == PlatformCall::Draw(
                    true,
                ) && exists|renderer: &SoftwareRenderer| #[trigger]
                    draw.ensures((renderer,), Some(error)),
                Err(_) => false,
            },
    {
        let drawn = self.operated.draw(draw);
        assert(may_return(draw, drawn));
        let error = match drawn {
            Some(error) => error,
            None => None,
        };
        match frame_result(error) {
            Ok(()) => Ok(()),
            Err(error) => {
                let result = Err(StepError::Display(error));
                assert(result->Err_0->Display_0 == error);
                result
            },
        }
    }

    /// Asks for the nearest timer and returns how long to wait before the next step.
    pub fn next_wait(&mut self) -> (wait: Duration)
        ensures
            final(self).serves_as(*old(self)),
            final(self).touch() == old(self).touch(),
            final(self).input() == old(self).input(),
            exists|timer: Option<Duration>|
                wait == #[trigger] wait_for(timer, old(self).poll_interval()) && final(self).calls()
                    == old(self).calls().push(PlatformCall::QueryTimer(timer)),
            final(self).window() == old(self).window(),
            final(self).poll_interval() == old(self).poll_interval(),
            final(self).calls().len() == old(self).calls().len() + 1,
            final(self).calls().last() matches PlatformCall::QueryTimer(timer) && (wait == old(
                self,
            ).poll_interval() || timer == Some(wait)) && duration_nanos(wait) <= duration_nanos(
                old(self).poll_interval(),
            ) && (timer matches Some(due) ==> duration_nanos(wait) <= duration_nanos(due)),
    {
        let timer = self.operated.next_timer();
        next_wait(timer, self.poll_interval)
    }
}

impl<TOUCH: TouchInput> McuEventLoop<TOUCH> {
    /// Reads one touch sample and announces what changed to the window.
    pub fn dispatch_touch<DE>(&mut self) -> (result: Result<(), StepError<TOUCH::Error, DE>>)
        ensures
            final(self).serves_as(*old(self)),
            final(self).window() == old(self).window(),
            final(self).poll_interval() == old(self).poll_interval(),
            old(self).touch().wf() ==> final(self).touch().wf(),
            exists|sample: Result<Option<TouchPoint>, TOUCH::Error>, input: &mut TOUCH| #[trigger]
                TOUCH::read_touch.ensures((input,), sample) && *input == old(self).input()
                    && *final(input) == final(self).input() && touch_dispatched(
                    old(self).touch(),
                    sample,
                    final(self).touch(),
                    result,
                    old(self).calls(),
                    final(self).calls(),
                ),
    {
        let polled = self.operated.poll_touch();
        match polled {
            Ok(update) => {
                let dispatched = self.dispatch_update(update);
                match dispatched {
                    Ok(()) => Ok(()),
                    Err(error) => {
                        proof {
                            let result = Err::<(), StepError<TOUCH::Error, DE>>(
                                StepError::Platform(error),
                            );
                            assert(result->Err_0->Platform_0 == error);
                        }
                        Err(StepError::Platform(error))
                    },
                }
            },
            Err(error) => Err(StepError::Touch(error)),
        }
    }

    /// Processes timers, one touch sample, and any pending rendering.
    ///
    /// The returned duration is the maximum time the caller should wait before invoking this
    /// method again. Waking earlier is always valid.
    ///
    /// Slint panics where a step is made from inside a timer callback, or where the platform's
    /// clock runs backwards; both rest on Slint's own state.
    pub fn step<DE, F: FnOnce(&SoftwareRenderer) -> Option<DE>>(&mut self, draw: F) -> (result:
        Result<Duration, StepError<TOUCH::Error, DE>>)
        requires
            forall|renderer: &SoftwareRenderer| #[trigger] draw.requires((renderer,)),
        ensures
            final(self).serves_as(*old(self)),
            final(self).window() == old(self).window(),
            final(self).poll_interval() == old(self).poll_interval(),
            old(self).touch().wf() ==> final(self).touch().wf(),
            old(self).calls().is_prefix_of(final(self).calls()),
            exists|
                sample: Result<Option<TouchPoint>, TOUCH::Error>,
                input: &mut TOUCH,
                drawn: Option<Option<DE>>,
            |
                #![trigger TOUCH::read_touch.ensures((input,), sample), may_return(draw, drawn)]
                TOUCH::read_touch.ensures((input,), sample) && *input == old(self).input()
                    && *final(input) == final(self).input() && may_return(
                    draw,
                    drawn,
                ) && stepped(
                    old(self).touch(),
                    old(self).poll_interval(),
                    sample,
                    drawn,
                    final(self).touch(),
                    result,
                    final(self).calls().skip(old(self).calls().len() as int),
                ),
            final(self).calls().len() >= old(self).calls().len() + 2,
            final(self).calls()[old(self).calls().len() as int] == PlatformCall::UpdateTimers,
            final(self).calls()[old(self).calls().len() + 1int] == PlatformCall::ReadTouch,
            match result {
                Ok(wait) => {
                    let n = final(self).calls().len();
                    &&& n >= old(self).calls().len() + 4
                    &&& forall|i: int|
                        old(self).calls().len() + 2 <= i < n - 2 ==> (
                        #[trigger] final(self).calls()[i] matches PlatformCall::Dispatch(_, None))
                    &&& final(self).calls()[n - 2] == PlatformCall::Draw(false) || (
                    final(self).calls()[n - 2] == PlatformCall::Draw(true) && exists|
                        renderer: &SoftwareRenderer,
                    | #[trigger] draw.ensures((renderer,), None))
                    &&& final(self).calls()[n - 1] matches PlatformCall::QueryTimer(timer)
                    &&& wait == old(self).poll_interval() || timer == Some(wait)
                    &&& duration_nanos(wait) <= duration_nanos(old(self).poll_interval())
                    &&& timer matches Some(due) ==> duration_nanos(wait) <= duration_nanos(due)
                },
                Err(StepError::Touch(_)) => final(self).calls().len() == old(self).calls().len()
                    + 2,
                Err(StepError::Platform(error)) => {
                    let n = final(self).calls().len();
                    &&& n >= old(self).calls().len() + 3
                    &&& forall|i: int|
                        old(self).calls().len() + 2 <= i < n - 1 ==> (
                        #[trigger] final(self).calls()[i] matches PlatformCall::Dispatch(_, None))
                    &&& final(self).calls()[n - 1] matches PlatformCall::Dispatch(_, Some(refusal))
                    &&& refusal == error
                },
                Err(StepError::Display(error)) => {
                    let n = final(self).calls().len();
                    &&& n >= old(self).calls().len() + 3
                    &&& forall|i: int|
                        old(self).calls().len() + 2 <= i < n - 1 ==> (
                        #[trigger] final(self).calls()[i] matches PlatformCall::Dispatch(_, None))
                    &&& final(self).calls()[n - 1] == PlatformCall::Draw(true)
                    &&& exists|renderer: &SoftwareRenderer| #[trigger]
                        draw.ensures((renderer,), Some(error))
                },
            },
    {
        let ghost start = self.calls();
        self.operated.update_timers();
        let ghost timed = *self;
        let dispatched = self.dispatch_touch();
        let ghost (sample, input) = choose|
            sample: Result<Option<TouchPoint>, TOUCH::Error>,
            input: &mut TOUCH,
        | #[trigger]
            TOUCH::read_touch.ensures((input,), sample) && *input == timed.input() && *final(input)
                == self.input() && touch_dispatched(
                timed.touch(),
                sample,
                self.touch(),
                dispatched,
                timed.calls(),
                self.calls(),
            );
        let ghost touched = *self;
        assert(may_return(draw, None));
        match dispatched {
            Ok(()) => {},
            Err(error) => {
                proof {
                    let added = self.calls().skip(start.len() as int);
                    assert(self.calls() =~= start + added);
                    if error is Touch {
                        assert(added =~= step_calls(seq![]));
                    } else {
                        let events = events_of(timed.touch().update(sample->Ok_0));
                        let refusal = error->Platform_0;
                        let n = choose|n: int|
                            0 <= n < events.len() && self.calls() == timed.calls().push(
                                PlatformCall::ReadTouch,
                            ) + #[trigger] refused_at(events, n, refusal);
                        assert(added =~= step_calls(refused_at(events, n, refusal)));
                    }
                }
                return Err(error);
            },
        }
        let shown = self.render::<TOUCH::Error, DE, F>(draw);
        let ghost drawn = choose|drawn: Option<Option<DE>>| #[trigger]
            may_return(draw, drawn) && self.calls() == touched.calls().push(
                PlatformCall::Draw(drawn is Some),
            ) && shown == rendered::<TOUCH::Error, DE>(drawn);
        let ghost events = events_of(timed.touch().update(sample->Ok_0));
        match shown {
            Ok(()) => {},
            Err(error) => {
                proof {
                    let added = self.calls().skip(start.len() as int);
                    assert(self.calls() =~= start + added);
                    assert(added =~= step_calls(
                        accepted(events) + seq![PlatformCall::Draw(true)],
                    ));
                }
                return Err(error);
            },
        }
        let ghost painted = *self;
        let wait = self.next_wait();
        proof {
            let timer = choose|timer: Option<Duration>|
                wait == #[trigger] wait_for(timer, painted.poll_interval()) && self.calls()
                    == painted.calls().push(PlatformCall::QueryTimer(timer));
            let added = self.calls().skip(start.len() as int);
            assert(self.calls() =~= start + added);
            assert(added =~= step_calls(
                accepted(events) + seq![
                    PlatformCall::Draw(drawn is Some),
                    PlatformCall::QueryTimer(timer),
                ],
            ));
        }
        Ok(wait)
    }
}

/// What happened to a blocking event loop.
pub enum LoopEvent<E> {
    /// The loop was started.
    Started,
    /// The window was found to be visible or not.
    Visibility(bool),
    /// A step ended.
    Stepped(Result<Duration, E>),
    /// The wait between two steps is over.
    Waited,
}

/// What a blocking event loop does next.
pub enum LoopAction<E> {
    /// Find out whether the window is visible.
    CheckVisibility,
    /// Run one step.
    Step,
    /// Wait for at most that time, which is not zero.
    Wait(Duration),
    /// Leave the loop with that result.
    Return(Result<(), E>),
}

/// What follows an event: while the window is visible the loop steps and then waits, unless there
/// is no time to wait; a failed step ends it.
pub open spec fn action_after<E>(event: LoopEvent<E>) -> LoopAction<E> {
    match event {
        LoopEvent::Started => LoopAction::CheckVisibility,
        LoopEvent::Visibility(true) => LoopAction::Step,
        LoopEvent::Visibility(false) => LoopAction::Return(Ok(())),
        LoopEvent::Stepped(Err(error)) => LoopAction::Return(Err(error)),
        LoopEvent::Stepped(Ok(wait)) => if duration_nanos(wait) == 0 {
            LoopAction::CheckVisibility
        } else {
            LoopAction::Wait(wait)
        },
        LoopEvent::Waited => LoopAction::CheckVisibility,
    }
}

/// Returns what a blocking event loop does after an event.
pub fn run_event_loop<E>(event: LoopEvent<E>) -> (action: LoopAction<E>)
    ensures
        action == action_after(event),
        match event {
            LoopEvent::Started => action is CheckVisibility,
            LoopEvent::Waited => action is CheckVisibility,
            LoopEvent::Visibility(visible) => if visible {
                action is Step
            } else {
                action matches LoopAction::Return(Ok(_))
            },
            LoopEvent::Stepped(Err(error)) => action matches LoopAction::Return(Err(failure))
                && failure == error,
            LoopEvent::Stepped(Ok(time)) => if duration_nanos(time) == 0 {
                action is CheckVisibility
            } else {
                action == LoopAction::<E>::Wait(time)
            },
        },
{
    match event {
        LoopEvent::Started => LoopAction::CheckVisibility,
        LoopEvent::Visibility(visible) => {
            if visible {
                LoopAction::Step
            } else {
                LoopAction::Return(Ok(()))
            }
        },
        LoopEvent::Stepped(Ok(wait)) => {
            if wait.is_zero() {
                LoopAction::CheckVisibility
            } else {
                LoopAction::Wait(wait)
            }
        },
        LoopEvent::Stepped(Err(error)) => LoopAction::Return(Err(error)),
        LoopEvent::Waited => LoopAction::CheckVisibility,
    }
}

} // verus!
