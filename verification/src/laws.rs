//! Laws of the adapter as a whole: what holds over many samples and many steps.

use core::convert::Infallible;
use core::time::Duration;

use mipidsi::InitError;
use slint::platform::{PlatformError, SetPlatformError};
use vstd::prelude::*;

use crate::builder::{
    app_of, AdapterBuilder, BuiltApp, InitializedDisplay, McuBackend, NotBuilt,
};
use crate::error::{AdapterError, StepError};
use crate::event_loop::{
    accepted, action_after, rendered, step_calls, stepped, LoopAction, LoopEvent,
};
use crate::platform::PlatformCall;
use crate::pointer::{events_of, PointerButton, PointerEvent};
use crate::render::{a_frame_fails_with_its_first_error, first_error, Frame};
use crate::time::{duration_nanos, wait_for, McuRuntime};
use crate::touch::{NoTouch, PointerPosition, TouchInput, TouchPoint, TouchState, TouchUpdate};

verus! {

/// The state after a sequence of samples.
pub open spec fn state_after(state: TouchState, samples: Seq<Option<TouchPoint>>) -> TouchState
    decreases samples.len(),
{
    if samples.len() == 0 {
        state
    } else {
        state_after(state.after(samples[0]), samples.skip(1))
    }
}

/// The events that announce a sequence of samples.
pub open spec fn events_for(state: TouchState, samples: Seq<Option<TouchPoint>>) -> Seq<
    PointerEvent,
>
    decreases samples.len(),
{
    if samples.len() == 0 {
        seq![]
    } else {
        events_of(state.update(samples[0])) + events_for(
            state.after(samples[0]),
            samples.skip(1),
        )
    }
}

/// The contact that is left after events, if they are proper touch gestures: each one starts with
/// a press of the left button, goes on with moves to other places, and ends where it was last
/// seen, with a release and at once the pointer's exit. The last gesture may be unfinished.
pub open spec fn gestures(
    contact: Option<PointerPosition>,
    events: Seq<PointerEvent>,
) -> Option<Option<PointerPosition>>
    decreases events.len(),
{
    if events.len() == 0 {
        Some(contact)
    } else {
        match (contact, events[0]) {
            (None, PointerEvent::Pressed { position, button: PointerButton::Left }) => gestures(
                Some(position),
                events.skip(1),
            ),
            (Some(previous), PointerEvent::Moved { position }) => if previous != position {
                gestures(Some(position), events.skip(1))
            } else {
                None
            },
            (
                Some(previous),
                PointerEvent::Released { position, button: PointerButton::Left },
            ) => if previous == position && events.len() >= 2 && events[1]
                == PointerEvent::Exited {
                gestures(None, events.skip(2))
            } else {
                None
            },
            _ => None,
        }
    }
}

/// One sample keeps gestures proper.
proof fn gestures_go_on(state: TouchState, sample: Option<TouchPoint>, rest: Seq<PointerEvent>)
    ensures
        gestures(state.last, events_of(state.update(sample)) + rest) == gestures(
            state.after(sample).last,
            rest,
        ),
{
    let events = events_of(state.update(sample));
    let all = events + rest;
    match state.update(sample) {
        TouchUpdate::Unchanged => {
            assert(all =~= rest);
        },
        TouchUpdate::Released(_) => {
            assert(all.skip(2) =~= rest);
        },
        _ => {
            assert(all.skip(1) =~= rest);
        },
    }
}

/// Whatever is sampled, the events form proper gestures, and the contact that is left is the one
/// that is remembered.
pub proof fn samples_become_gestures(state: TouchState, samples: Seq<Option<TouchPoint>>)
    ensures
        gestures(state.last, events_for(state, samples)) == Some(
            state_after(state, samples).last,
        ),
    decreases samples.len(),
{
    if samples.len() > 0 {
        let rest = samples.skip(1);
        samples_become_gestures(state.after(samples[0]), rest);
        gestures_go_on(state, samples[0], events_for(state.after(samples[0]), rest));
    }
}

/// Whatever is sampled, every event lies on the display, and so does the remembered contact.
pub proof fn events_lie_on_the_display(state: TouchState, samples: Seq<Option<TouchPoint>>)
    requires
        state.wf(),
    ensures
        state_after(state, samples).wf(),
        state_after(state, samples).max_x == state.max_x,
        state_after(state, samples).max_y == state.max_y,
        forall|i: int|
            0 <= i < events_for(state, samples).len() ==> ((
            #[trigger] events_for(state, samples)[i]).place() matches Some(position)
                ==> state.on_display(position)),
    decreases samples.len(),
{
    if samples.len() > 0 {
        events_lie_on_the_display(state.after(samples[0]), samples.skip(1));
    }
}

/// A point on the display is not moved by clamping, any other goes to the nearest point on it, and
/// clamping twice changes nothing more.
pub proof fn clamping_goes_to_the_nearest_point(
    state: TouchState,
    point: TouchPoint,
    other: PointerPosition,
)
    requires
        state.on_display(other),
    ensures
        state.on_display(state.clamp(point)),
        state.on_display(PointerPosition { x: point.x, y: point.y }) ==> state.clamp(point) == (
        PointerPosition { x: point.x, y: point.y }),
        point.x - state.clamp(point).x <= if point.x >= other.x {
            point.x - other.x
        } else {
            other.x - point.x
        },
        point.y - state.clamp(point).y <= if point.y >= other.y {
            point.y - other.y
        } else {
            other.y - point.y
        },
        state.clamp(point).x <= point.x && state.clamp(point).y <= point.y,
        state.clamp(TouchPoint { x: state.clamp(point).x, y: state.clamp(point).y })
            == state.clamp(point),
{
}

/// A contact that is held still causes no event after the first sample that shows it.
pub proof fn a_still_contact_is_silent(state: TouchState, sample: Option<TouchPoint>)
    ensures
        state.after(sample).update(sample) == TouchUpdate::Unchanged,
        state.after(sample).after(sample) == state.after(sample),
{
}

/// A sample without a contact during a hold is a release, and the contact's return a new press; a
/// read that fails instead says nothing and changes nothing.
pub proof fn a_lost_sample_is_a_release<E>(state: TouchState, point: TouchPoint, error: E)
    ensures
        state.after(Some(point)).update(None) == TouchUpdate::Released(state.clamp(point)),
        state.after(Some(point)).after(None).update(Some(point)) == TouchUpdate::Pressed(
            state.clamp(point),
        ),
        forall|after: TouchState, result: Result<TouchUpdate, E>| #[trigger]
            state.polled(Err(error), after, result) ==> after == state && result == Err::<
                TouchUpdate,
                E,
            >(error),
{
}

/// The events among calls that the window accepted.
pub open spec fn received(calls: Seq<PlatformCall>) -> Seq<PointerEvent>
    decreases calls.len(),
{
    if calls.len() == 0 {
        seq![]
    } else {
        match calls.last() {
            PlatformCall::Dispatch(event, None) => received(calls.drop_last()).push(event),
            _ => received(calls.drop_last()),
        }
    }
}

proof fn received_in_parts(a: Seq<PlatformCall>, b: Seq<PlatformCall>)
    ensures
        received(a + b) == received(a) + received(b),
    decreases b.len(),
{
    if b.len() == 0 {
        assert(a + b =~= a);
        assert(received(a) + received(b) =~= received(a));
    } else {
        received_in_parts(a, b.drop_last());
        assert((a + b).drop_last() =~= a + b.drop_last());
        assert((a + b).last() == b.last());
        assert(received(a + b) =~= received(a) + received(b));
    }
}

proof fn accepted_is_received(events: Seq<PointerEvent>)
    ensures
        received(accepted(events)) == events,
    decreases events.len(),
{
    if events.len() > 0 {
        accepted_is_received(events.drop_last());
        assert(accepted(events).drop_last() =~= accepted(events.drop_last()));
        assert(events.drop_last().push(events.last()) =~= events);
    } else {
        assert(events =~= seq![]);
    }
}

/// A step in which the window refuses no event gives it exactly the events that announce the
/// sample: none where the read failed.
pub proof fn a_step_announces_its_sample<TE, DE>(
    before: TouchState,
    poll_interval: Duration,
    sample: Result<Option<TouchPoint>, TE>,
    drawn: Option<Option<DE>>,
    after: TouchState,
    result: Result<Duration, StepError<TE, DE>>,
    calls: Seq<PlatformCall>,
)
    requires
        stepped(before, poll_interval, sample, drawn, after, result, calls),
        !(result matches Err(StepError::Platform(_))),
    ensures
        received(calls) == (match sample {
            Ok(point) => events_of(before.update(point)),
            Err(_) => seq![],
        }),
        after == (match sample {
            Ok(point) => before.after(point),
            Err(_) => before,
        }),
{
    reveal_with_fuel(received, 3);
    let first = seq![PlatformCall::UpdateTimers, PlatformCall::ReadTouch];
    assert(first.drop_last() =~= seq![PlatformCall::UpdateTimers]);
    assert(first.drop_last().drop_last() =~= seq![]);
    match sample {
        Err(_) => {
            assert(calls =~= first);
        },
        Ok(point) => {
            let events = events_of(before.update(point));
            accepted_is_received(events);
            let last = calls.skip(2 + events.len() as int);
            match result {
                Ok(wait) => {
                    let timer = choose|timer: Option<Duration>| #[trigger]
                        wait_for(timer, poll_interval) == wait && calls == step_calls(
                            accepted(events) + seq![
                                PlatformCall::Draw(drawn is Some),
                                PlatformCall::QueryTimer(timer),
                            ],
                        );
                    assert(last =~= seq![
                        PlatformCall::Draw(drawn is Some),
                        PlatformCall::QueryTimer(timer),
                    ]);
                    assert(last.drop_last() =~= seq![PlatformCall::Draw(drawn is Some)]);
                    assert(last.drop_last().drop_last() =~= seq![]);
                },
                _ => {
                    assert(last =~= seq![PlatformCall::Draw(true)]);
                    assert(last.drop_last() =~= seq![]);
                },
            }
            assert(received(last) =~= seq![]);
            received_in_parts(accepted(events), last);
            received_in_parts(first, accepted(events) + last);
            assert(calls =~= first + (accepted(events) + last));
            assert(received(calls) =~= events);
        },
    }
}

/// A step of the event loop, as [`stepped`] describes it.
#[verifier::reject_recursive_types(TE)]
#[verifier::reject_recursive_types(DE)]
pub struct Step<TE, DE> {
    pub before: TouchState,
    pub poll_interval: Duration,
    pub sample: Result<Option<TouchPoint>, TE>,
    pub drawn: Option<Option<DE>>,
    pub after: TouchState,
    pub result: Result<Duration, StepError<TE, DE>>,
    pub calls: Seq<PlatformCall>,
}

impl<TE, DE> Step<TE, DE> {
    /// Whether the step went as [`stepped`] says.
    pub open spec fn was_made(self) -> bool {
        stepped(
            self.before,
            self.poll_interval,
            self.sample,
            self.drawn,
            self.after,
            self.result,
            self.calls,
        )
    }

    /// Whether the step was made, with no event refused.
    pub open spec fn goes_well(self) -> bool {
        &&& self.was_made()
        &&& !(self.result matches Err(StepError::Platform(_)))
    }
}

/// Steps that follow one another: each starts with what the one before it remembered.
pub open spec fn in_sequence<TE, DE>(start: TouchState, steps: Seq<Step<TE, DE>>) -> bool
    decreases steps.len(),
{
    steps.len() > 0 ==> {
        &&& steps[0].before == start
        &&& steps[0].goes_well()
        &&& in_sequence(steps[0].after, steps.skip(1))
    }
}

/// The events that the window receives in a sequence of steps.
pub open spec fn received_in<TE, DE>(steps: Seq<Step<TE, DE>>) -> Seq<PointerEvent>
    decreases steps.len(),
{
    if steps.len() == 0 {
        seq![]
    } else {
        received(steps[0].calls) + received_in(steps.skip(1))
    }
}

/// What is remembered after a sequence of steps.
pub open spec fn remembered_after<TE, DE>(start: TouchState, steps: Seq<Step<TE, DE>>) -> TouchState
    decreases steps.len(),
{
    if steps.len() == 0 {
        start
    } else {
        remembered_after(steps[0].after, steps.skip(1))
    }
}

/// Over any number of steps in which the window refuses no event, whatever the samples are and
/// whichever reads or frames fail, the window receives proper gestures.
pub proof fn steps_deliver_gestures<TE, DE>(start: TouchState, steps: Seq<Step<TE, DE>>)
    requires
        in_sequence(start, steps),
    ensures
        gestures(start.last, received_in(steps)) == Some(remembered_after(start, steps).last),
    decreases steps.len(),
{
    if steps.len() > 0 {
        let step = steps[0];
        let rest = steps.skip(1);
        steps_deliver_gestures(step.after, rest);
        a_step_announces_its_sample(
            step.before,
            step.poll_interval,
            step.sample,
            step.drawn,
            step.after,
            step.result,
            step.calls,
        );
        match step.sample {
            Ok(point) => {
                gestures_go_on(step.before, point, received_in(rest));
            },
            Err(_) => {
                assert(received_in(steps) =~= received_in(rest));
            },
        }
    }
}

/// Over any number of steps in which the window refuses no event, every event that it receives
/// lies on the display.
pub proof fn steps_stay_on_the_display<TE, DE>(start: TouchState, steps: Seq<Step<TE, DE>>)
    requires
        start.wf(),
        in_sequence(start, steps),
    ensures
        remembered_after(start, steps).wf(),
        forall|i: int|
            0 <= i < received_in(steps).len() ==> ((#[trigger] received_in(
                steps,
            )[i]).place() matches Some(position) ==> start.on_display(position)),
    decreases steps.len(),
{
    if steps.len() > 0 {
        let step = steps[0];
        a_step_announces_its_sample(
            step.before,
            step.poll_interval,
            step.sample,
            step.drawn,
            step.after,
            step.result,
            step.calls,
        );
        steps_stay_on_the_display(step.after, steps.skip(1));
    }
}

/// A loop for a display without touch input never dispatches an event: no sample fails, none has a
/// contact, and nothing is ever remembered.
pub proof fn display_only_steps_dispatch_nothing<DE>(
    before: TouchState,
    poll_interval: Duration,
    sample: Result<Option<TouchPoint>, Infallible>,
    drawn: Option<Option<DE>>,
    after: TouchState,
    result: Result<Duration, StepError<Infallible, DE>>,
    calls: Seq<PlatformCall>,
)
    requires
        before.last is None,
        exists|input: &mut NoTouch| #[trigger] NoTouch::read_touch.ensures((input,), sample),
        stepped(before, poll_interval, sample, drawn, after, result, calls),
    ensures
        after == before,
        received(calls) == Seq::<PointerEvent>::empty(),
        result is Ok || (result matches Err(StepError::Display(_))),
        forall|i: int|
            0 <= i < calls.len() ==> !(#[trigger] calls[i] matches PlatformCall::Dispatch(_, _)),
{
    a_step_announces_its_sample(before, poll_interval, sample, drawn, after, result, calls);
}

/// The wait that a step returns is never longer than the poll interval.
pub proof fn steps_wait_at_most_the_interval<TE, DE>(
    before: TouchState,
    poll_interval: Duration,
    sample: Result<Option<TouchPoint>, TE>,
    drawn: Option<Option<DE>>,
    after: TouchState,
    result: Result<Duration, StepError<TE, DE>>,
    calls: Seq<PlatformCall>,
)
    requires
        stepped(before, poll_interval, sample, drawn, after, result, calls),
    ensures
        result matches Ok(wait) ==> duration_nanos(wait) <= duration_nanos(poll_interval),
{
}

/// A read that fails ends the step with its error, and a blocking loop with it: nothing is
/// dispatched, drawn or waited for.
pub proof fn a_failed_read_ends_the_loop<TE, DE>(
    before: TouchState,
    poll_interval: Duration,
    error: TE,
    drawn: Option<Option<DE>>,
    after: TouchState,
    result: Result<Duration, StepError<TE, DE>>,
    calls: Seq<PlatformCall>,
)
    requires
        stepped(before, poll_interval, Err(error), drawn, after, result, calls),
    ensures
        result == Err::<Duration, StepError<TE, DE>>(StepError::Touch(error)),
        action_after(LoopEvent::Stepped(result)) == LoopAction::Return(
            Err::<(), StepError<TE, DE>>(StepError::Touch(error)),
        ),
        after == before,
        calls == seq![PlatformCall::UpdateTimers, PlatformCall::ReadTouch],
{
    assert(calls =~= seq![PlatformCall::UpdateTimers, PlatformCall::ReadTouch]);
}

/// What a blocking loop waits for after a step is the shorter one of the poll interval and the time
/// until the timer that the step found nearest.
pub proof fn a_blocking_loop_waits_for_the_shorter_one<TE, DE>(
    before: TouchState,
    poll_interval: Duration,
    sample: Result<Option<TouchPoint>, TE>,
    drawn: Option<Option<DE>>,
    after: TouchState,
    result: Result<Duration, StepError<TE, DE>>,
    calls: Seq<PlatformCall>,
    wait: Duration,
)
    requires
        stepped(before, poll_interval, sample, drawn, after, result, calls),
        action_after(LoopEvent::Stepped(result)) == LoopAction::<StepError<TE, DE>>::Wait(wait),
    ensures
        calls.last() matches PlatformCall::QueryTimer(timer) && wait == wait_for(
            timer,
            poll_interval,
        ),
{
}

/// A blocking loop leaves with success only when the window is no longer visible and with an error
/// only when a step gave it, it steps only while the window is visible, and it never waits for no
/// time.
pub proof fn a_blocking_loop_ends_for_a_reason<E>(event: LoopEvent<E>, error: E)
    ensures
        action_after(event) == LoopAction::<E>::Return(Ok(())) <==> event == LoopEvent::<
            E,
        >::Visibility(false),
        action_after(event) == LoopAction::<E>::Return(Err(error)) <==> event == LoopEvent::<
            E,
        >::Stepped(Err(error)),
        action_after(event) == LoopAction::<E>::Step <==> event == LoopEvent::<E>::Visibility(true),
        action_after(event) matches LoopAction::Wait(wait) ==> duration_nanos(wait) > 0,
{
}

/// A display error is not carried over: whatever frame was drawn before, and however it failed, a
/// frame of which the display refuses no line succeeds, and every line of it is sent to the display.
pub proof fn a_display_error_is_not_carried_over<DISPLAY, TE, DE>(
    earlier: Frame<DISPLAY, DE>,
    later: Frame<DISPLAY, DE>,
)
    requires
        earlier.was_drawn(),
        rendered::<TE, DE>(Some(earlier.error)) is Err,
        later.was_drawn(),
        forall|i: int|
            0 <= i < later.lines.len() ==> !((#[trigger] later.lines[i]).answer matches Some(Err(_))),
    ensures
        rendered::<TE, DE>(Some(later.error)) == Ok::<(), StepError<TE, DE>>(()),
        forall|i: int|
            0 <= i < later.lines.len() ==> (#[trigger] later.lines[i]).answer == Some(
                Ok::<(), DE>(()),
            ),
{
    a_frame_fails_with_its_first_error(later);
}

/// Rendering fails if and only if the display refuses a line of the frame that is drawn, and then
/// with the first error of that frame.
pub proof fn rendering_fails_with_its_own_frame<DISPLAY, TE, DE>(frame: Frame<DISPLAY, DE>)
    requires
        frame.was_drawn(),
    ensures
        rendered::<TE, DE>(Some(frame.error)) == (match first_error(frame.lines) {
            Some(error) => Err::<(), StepError<TE, DE>>(StepError::Display(error)),
            None => Ok(()),
        }),
        rendered::<TE, DE>(Some(frame.error)) is Err <==> exists|i: int|
            0 <= i < frame.lines.len() && ((#[trigger] frame.lines[i]).answer matches Some(Err(_))),
{
    a_frame_fails_with_its_first_error(frame);
}

/// What an event loop meets in one turn: whether the window is visible, and how a step goes.
#[verifier::reject_recursive_types(TE)]
#[verifier::reject_recursive_types(DE)]
pub struct Turn<TE, DE> {
    pub visible: bool,
    pub step: Step<TE, DE>,
}

/// What an event loop does: it asks whether the window is visible, makes a step, or waits.
#[verifier::reject_recursive_types(TE)]
#[verifier::reject_recursive_types(DE)]
pub enum Deed<TE, DE> {
    Ask(bool),
    Make(Step<TE, DE>),
    Wait(Duration),
}

/// All that an event loop did, and its result if it has ended.
#[verifier::reject_recursive_types(TE)]
#[verifier::reject_recursive_types(DE)]
pub struct LoopRun<TE, DE> {
    pub deeds: Seq<Deed<TE, DE>>,
    pub result: Option<Result<(), StepError<TE, DE>>>,
}

impl<TE, DE> LoopRun<TE, DE> {
    /// Nothing was done, with that result.
    pub open spec fn of(result: Option<Result<(), StepError<TE, DE>>>) -> Self {
        LoopRun { deeds: seq![], result }
    }

    /// The same, with one deed before it.
    pub open spec fn after(self, deed: Deed<TE, DE>) -> Self {
        LoopRun { deeds: seq![deed] + self.deeds, result: self.result }
    }
}

/// A caller's loop over the turns that it meets: while the window is visible, make a step, leave
/// with its error if it fails, and wait for the time that it returned unless that is zero.
pub open spec fn stepping<TE, DE>(turns: Seq<Turn<TE, DE>>) -> LoopRun<TE, DE>
    decreases turns.len(),
{
    if turns.len() == 0 {
        LoopRun::of(None)
    } else if !turns[0].visible {
        LoopRun::of(Some(Ok(()))).after(Deed::Ask(false))
    } else {
        match turns[0].step.result {
            Err(error) => LoopRun::of(Some(Err(error))).after(Deed::Make(turns[0].step)),
            Ok(wait) => if duration_nanos(wait) == 0 {
                stepping(turns.skip(1)).after(Deed::Make(turns[0].step))
            } else {
                stepping(turns.skip(1)).after(Deed::Wait(wait)).after(Deed::Make(turns[0].step))
            },
        }.after(Deed::Ask(true))
    }
}

/// How many events at most follow an event before the next turn.
pub open spec fn phase<E>(event: LoopEvent<E>) -> int {
    match event {
        LoopEvent::Visibility(_) => 0,
        LoopEvent::Started => 1,
        LoopEvent::Waited => 1,
        LoopEvent::Stepped(_) => 2,
    }
}

/// The blocking loop over the turns that it meets, after an event: it does what [`action_after`]
/// says and takes what it meets for the next event.
pub open spec fn blocking<TE, DE>(
    event: LoopEvent<StepError<TE, DE>>,
    turns: Seq<Turn<TE, DE>>,
) -> LoopRun<TE, DE>
    decreases turns.len(), phase(event),
{
    match action_after(event) {
        LoopAction::Return(result) => LoopRun::of(Some(result)),
        LoopAction::Wait(wait) => blocking(LoopEvent::Waited, turns).after(Deed::Wait(wait)),
        LoopAction::CheckVisibility => if turns.len() == 0 {
            LoopRun::of(None)
        } else {
            blocking(LoopEvent::Visibility(turns[0].visible), turns).after(
                Deed::Ask(turns[0].visible),
            )
        },
        LoopAction::Step => if turns.len() == 0 {
            LoopRun::of(None)
        } else {
            blocking(LoopEvent::Stepped(turns[0].step.result), turns.skip(1)).after(
                Deed::Make(turns[0].step),
            )
        },
    }
}

proof fn blocking_goes_on_stepping<TE, DE>(
    event: LoopEvent<StepError<TE, DE>>,
    turns: Seq<Turn<TE, DE>>,
)
    requires
        action_after(event) == LoopAction::<StepError<TE, DE>>::CheckVisibility,
    ensures
        blocking(event, turns) == stepping(turns),
    decreases turns.len(),
{
    reveal_with_fuel(blocking, 4);
    if turns.len() > 0 && turns[0].visible {
        let rest = turns.skip(1);
        let next = LoopEvent::Stepped(turns[0].step.result);
        if let Ok(wait) = turns[0].step.result {
            if duration_nanos(wait) == 0 {
                blocking_goes_on_stepping(next, rest);
            } else {
                blocking_goes_on_stepping(LoopEvent::Waited, rest);
            }
        }
    }
}

/// The blocking loop is a caller's loop: whatever the two meet, they ask, make the same steps, with
/// the same samples, events and frames, and wait, in the same order, and end with the same result.
pub proof fn a_blocking_loop_steps_while_running<TE, DE>(turns: Seq<Turn<TE, DE>>)
    ensures
        blocking(LoopEvent::Started, turns) == stepping(turns),
{
    blocking_goes_on_stepping(LoopEvent::Started, turns);
}

/// Whenever an event loop waits, it has just made a step, and it waits for the shorter one of the
/// poll interval and the time until the timer that the step found nearest, which is not zero.
pub proof fn every_wait_follows_its_step<TE, DE>(turns: Seq<Turn<TE, DE>>, i: int, wait: Duration)
    requires
        forall|k: int| 0 <= k < turns.len() ==> (#[trigger] turns[k]).step.was_made(),
        0 <= i < stepping(turns).deeds.len(),
        stepping(turns).deeds[i] == Deed::<TE, DE>::Wait(wait),
    ensures
        i > 0,
        stepping(turns).deeds[i - 1] matches Deed::Make(step) && step.was_made() && step.result
            == Ok::<Duration, StepError<TE, DE>>(wait) && (step.calls.last()
            matches PlatformCall::QueryTimer(timer) && wait == wait_for(timer, step.poll_interval)),
        duration_nanos(wait) > 0,
    decreases turns.len(),
{
    let step = turns[0].step;
    let deeds = stepping(turns).deeds;
    assert(step.was_made());
    if turns[0].visible {
        if let Ok(first) = step.result {
            let rest = turns.skip(1);
            let later = stepping(rest).deeds;
            assert(forall|k: int| 0 <= k < rest.len() ==> #[trigger] rest[k] == turns[k + 1]);
            if duration_nanos(first) == 0 {
                assert(deeds =~= seq![Deed::Ask(true), Deed::Make(step)] + later);
                if i >= 2 {
                    every_wait_follows_its_step(rest, i - 2, wait);
                    assert(deeds[i - 1] == later[i - 3]);
                }
            } else {
                assert(deeds =~= seq![Deed::Ask(true), Deed::Make(step), Deed::Wait(first)]
                    + later);
                if i >= 3 {
                    every_wait_follows_its_step(rest, i - 3, wait);
                    assert(deeds[i - 1] == later[i - 4]);
                }
            }
        } else {
            assert(deeds =~= seq![Deed::Ask(true), Deed::Make(step)]);
        }
    }
}

/// How a construction ended.
pub enum Outcome {
    /// The display could not be initialized, so nothing was installed.
    DisplayFailed,
    /// The platform was not accepted.
    Refused,
    /// The platform was installed and the component could not be constructed.
    AppFailed,
    /// The platform was installed and the component constructed.
    Built,
}

/// How a construction with that result ended.
pub open spec fn outcome_of<App, DE, RE>(result: Result<App, AdapterError<DE, RE>>) -> Outcome {
    match result {
        Err(AdapterError::Display(_)) => Outcome::DisplayFailed,
        Err(AdapterError::Platform(_)) => Outcome::Refused,
        Err(AdapterError::App(_)) => Outcome::AppFailed,
        Ok(_) => Outcome::Built,
    }
}

/// Whether a platform is installed after a construction, given whether one was before.
pub open spec fn installed_after(installed: bool, outcome: Outcome) -> bool {
    installed || outcome is AppFailed || outcome is Built
}

/// Whether a construction may end like that, given whether a platform was installed before.
pub open spec fn may_end(installed: bool, outcome: Outcome) -> bool {
    outcome is DisplayFailed || (outcome is Refused <==> installed)
}

/// Whether `install` succeeds where no platform is installed and fails where one is.
pub open spec fn installs_unless<PANEL, TOUCH, RUNTIME, HANDLE, S>(
    install: S,
    installed: bool,
) -> bool where S: FnOnce(McuBackend<PANEL, TOUCH, RUNTIME>) -> Result<HANDLE, SetPlatformError> {
    forall|
        backend: McuBackend<PANEL, TOUCH, RUNTIME>,
        result: Result<HANDLE, SetPlatformError>,
    | #[trigger]
        install.ensures((backend,), result) ==> (result is Ok <==> !installed)
}

/// Where only one platform can be installed, a construction whose display was initialized is refused
/// if and only if a platform was installed before; so none succeeds after that, nor reaches its
/// component. One whose component fails leaves its platform installed and the right to size its
/// window unused.
pub proof fn a_construction_is_refused_where_one_is_installed<
    DISPLAY,
    TOUCH,
    RUNTIME: McuRuntime,
    App,
    PANEL,
    HANDLE,
    DE,
    RE,
    I,
    S,
    A,
>(
    builder: AdapterBuilder<DISPLAY, TOUCH, RUNTIME>,
    init: I,
    install: S,
    app_factory: A,
    result: Result<BuiltApp<App, HANDLE>, NotBuilt<DE, RE>>,
    installed: bool,
) where
    I: FnOnce(DISPLAY) -> Result<InitializedDisplay<PANEL>, InitError<DE, RE>>,
    S: FnOnce(McuBackend<PANEL, TOUCH, RUNTIME>) -> Result<HANDLE, SetPlatformError>,
    A: FnOnce() -> Result<App, PlatformError>,

    requires
        builder.builds(init, install, app_factory, result),
        installs_unless(install, installed),
    ensures
        may_end(installed, outcome_of(app_of(result))),
        installed ==> !(outcome_of(app_of(result)) is AppFailed) && !(outcome_of(
            app_of(result),
        ) is Built),
        outcome_of(app_of(result)) is AppFailed ==> installed_after(
            installed,
            outcome_of(app_of(result)),
        ) && (result->Err_0.window matches Some(window) && window.size() is None),
        outcome_of(app_of(result)) is AppFailed ==> app_factory.ensures(
            (),
            Err(result->Err_0.error->App_0),
        ),
{
}

/// The constructions of one program, one after the other.
pub open spec fn in_one_program(installed: bool, outcomes: Seq<Outcome>) -> bool
    decreases outcomes.len(),
{
    outcomes.len() > 0 ==> {
        &&& may_end(installed, outcomes[0])
        &&& in_one_program(installed_after(installed, outcomes[0]), outcomes.skip(1))
    }
}

/// Once a platform is installed, every later construction of the program fails: with its display,
/// or because it is refused.
pub proof fn an_installed_platform_stays(outcomes: Seq<Outcome>, j: int)
    requires
        in_one_program(true, outcomes),
        0 <= j < outcomes.len(),
    ensures
        outcomes[j] is DisplayFailed || outcomes[j] is Refused,
    decreases outcomes.len(),
{
    if j > 0 {
        an_installed_platform_stays(outcomes.skip(1), j - 1);
    }
}

/// In one program at most one construction gets its platform installed, and so at most one
/// succeeds: after it, be it built or failed with its component, every other one fails with its
/// display or is refused.
pub proof fn a_platform_is_installed_once(
    installed: bool,
    outcomes: Seq<Outcome>,
    i: int,
    j: int,
)
    requires
        in_one_program(installed, outcomes),
        0 <= i < j < outcomes.len(),
        outcomes[i] is AppFailed || outcomes[i] is Built,
    ensures
        outcomes[j] is DisplayFailed || outcomes[j] is Refused,
    decreases outcomes.len(),
{
    let rest = outcomes.skip(1);
    if i > 0 {
        a_platform_is_installed_once(
            installed_after(installed, outcomes[0]),
            rest,
            i - 1,
            j - 1,
        );
    } else {
        an_installed_platform_stays(rest, j - 1);
    }
}

} // verus!
