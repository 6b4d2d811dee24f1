//! Laws of the single operations: what comes out, in terms of what went in.

use core::time::Duration;

use i_slint_renderer_software::Rgb565Pixel;
use mipidsi::InitError;
use slint::platform::{PlatformError, SetPlatformError};
use vstd::prelude::*;

use crate::builder::{
    app_of, AdapterBuilder, BuiltApp, InitializedDisplay, McuBackend, NotBuilt,
};
use crate::error::{error_of, AdapterError, StepError};
use crate::event_loop::{accepted, refused_at, rendered, step_calls, stepped, touch_dispatched};
use crate::laws::{events_for, received_in, state_after, Step};
use crate::laws::{a_step_announces_its_sample, in_sequence};
use crate::platform::{PlatformCall, RepaintBuffer};
use crate::pointer::{events_of, PointerButton, PointerEvent};
use crate::render::{colors_of, line_area, pixel_bits};
use crate::time::{duration_nanos, wait_for, McuRuntime};
use crate::touch::{PointerPosition, TouchPoint, TouchState, TouchUpdate};

verus! {

/// The last column and row of a display are one less than its width and height; a display without
/// columns or rows has the place zero, and coordinates reach no further than 65535.
pub proof fn a_display_ends_at_its_last_pixel(width: u32, height: u32)
    ensures
        1 <= width <= 65_536 ==> TouchState::initial(width, height).max_x + 1 == width,
        1 <= height <= 65_536 ==> TouchState::initial(width, height).max_y + 1 == height,
        width == 0 ==> TouchState::initial(width, height).max_x == 0,
        height == 0 ==> TouchState::initial(width, height).max_y == 0,
        width > 65_536 ==> TouchState::initial(width, height).max_x == 65_535,
        height > 65_536 ==> TouchState::initial(width, height).max_y == 65_535,
        TouchState::initial(width, height).last is None,
{
}

/// A contact on the display is seen where it is, and one beyond an edge at that edge; what is not
/// touched is seen nowhere. The display keeps its size.
pub proof fn a_contact_is_seen_where_it_is(state: TouchState, sample: Option<TouchPoint>)
    ensures
        state.contact(sample) is Some <==> sample is Some,
        sample matches Some(point) ==> (state.contact(sample) matches Some(place) && place.x
            <= point.x && place.x <= state.max_x && (place.x == point.x || place.x == state.max_x)
            && place.y <= point.y && place.y <= state.max_y && (place.y == point.y || place.y
            == state.max_y)),
        state.after(sample).last == state.contact(sample),
        state.after(sample).max_x == state.max_x,
        state.after(sample).max_y == state.max_y,
{
}

/// On a display of `width` times `height` pixels a touch of any pixel is seen at that pixel, and
/// a touch beyond the right or lower edge at the last column or row.
pub proof fn every_pixel_can_be_touched(
    width: u32,
    height: u32,
    samples: Seq<Option<TouchPoint>>,
    point: TouchPoint,
)
    requires
        1 <= width <= 65_536,
        1 <= height <= 65_536,
    ensures
        state_after(TouchState::initial(width, height), samples.push(Some(point))).last matches Some(
            place,
        ) && (point.x < width ==> place.x == point.x) && (point.x >= width ==> place.x + 1 == width)
            && (point.y < height ==> place.y == point.y) && (point.y >= height ==> place.y + 1
            == height),
{
    states_go_on(TouchState::initial(width, height), samples, Some(point));
    limits_stay(TouchState::initial(width, height), samples);
}

proof fn limits_stay(state: TouchState, samples: Seq<Option<TouchPoint>>)
    ensures
        state_after(state, samples).max_x == state.max_x,
        state_after(state, samples).max_y == state.max_y,
    decreases samples.len(),
{
    if samples.len() > 0 {
        limits_stay(state.after(samples[0]), samples.skip(1));
    }
}

proof fn states_go_on(
    state: TouchState,
    samples: Seq<Option<TouchPoint>>,
    sample: Option<TouchPoint>,
)
    ensures
        state_after(state, samples.push(sample)) == state_after(state, samples).after(sample),
    decreases samples.len(),
{
    if samples.len() > 0 {
        assert(samples.push(sample).skip(1) =~= samples.skip(1).push(sample));
        states_go_on(state.after(samples[0]), samples.skip(1), sample);
    } else {
        reveal_with_fuel(state_after, 2);
        assert(samples.push(sample).skip(1) =~= seq![]);
    }
}

/// A transition says how the contact that was seen last differs from the one that is seen now: it
/// is a press at a place if and only if there was none and now there is one there, a move if and
/// only if it was elsewhere, a release if and only if it was there and is gone, and none if and
/// only if nothing changed.
pub proof fn a_transition_is_the_difference(
    state: TouchState,
    sample: Option<TouchPoint>,
    place: PointerPosition,
)
    ensures
        state.update(sample) == TouchUpdate::Pressed(place) <==> state.last is None && state.after(
            sample,
        ).last == Some(place),
        state.update(sample) == TouchUpdate::Moved(place) <==> state.last is Some && state.last
            != Some(place) && state.after(sample).last == Some(place),
        state.update(sample) == TouchUpdate::Released(place) <==> state.last == Some(place)
            && sample is None,
        state.update(sample) == TouchUpdate::Unchanged <==> state.last == state.after(sample).last,
{
}

/// A poll fails if and only if its read does, with that error and nothing changed; otherwise it
/// gives the transition and remembers the contact of the sample.
pub proof fn a_poll_gives_what_was_read<E>(
    state: TouchState,
    sample: Result<Option<TouchPoint>, E>,
    after: TouchState,
    result: Result<TouchUpdate, E>,
)
    requires
        state.polled(sample, after, result),
    ensures
        result is Ok <==> sample is Ok,
        sample matches Err(error) ==> (result matches Err(failure) && failure == error) && after
            == state,
        sample matches Ok(point) ==> (result matches Ok(update) && update == state.update(point))
            && after == state.after(point) && (after.last is Some <==> point is Some),
{
}

/// A transition is announced by one event at its place, with the left button where it has one, and
/// a release by the pointer's exit too; where nothing changed there is no event.
pub proof fn a_transition_is_announced_once(update: TouchUpdate)
    ensures
        events_of(update).len() == (match update {
            TouchUpdate::Unchanged => 0int,
            TouchUpdate::Pressed(_) => 1,
            TouchUpdate::Moved(_) => 1,
            TouchUpdate::Released(_) => 2,
        }),
        update matches TouchUpdate::Pressed(place) ==> (events_of(update)[0]
            matches PointerEvent::Pressed { position, button: PointerButton::Left } && position
            == place),
        update matches TouchUpdate::Moved(place) ==> (events_of(update)[0]
            matches PointerEvent::Moved { position } && position == place),
        update matches TouchUpdate::Released(place) ==> (events_of(update)[0]
            matches PointerEvent::Released { position, button: PointerButton::Left } && position
            == place) && events_of(update)[1] == PointerEvent::Exited,
{
}

/// A kind of pointer event.
pub enum EventKind {
    Press,
    Move,
    Release,
    Exit,
}

/// The kind of an event.
pub open spec fn kind_of(event: PointerEvent) -> EventKind {
    match event {
        PointerEvent::Pressed { .. } => EventKind::Press,
        PointerEvent::Moved { .. } => EventKind::Move,
        PointerEvent::Released { .. } => EventKind::Release,
        PointerEvent::Exited => EventKind::Exit,
    }
}

/// How many events are of a kind.
pub open spec fn how_many(events: Seq<PointerEvent>, kind: EventKind) -> nat
    decreases events.len(),
{
    if events.len() == 0 {
        0
    } else {
        how_many(events.skip(1), kind) + if kind_of(events[0]) == kind {
            1nat
        } else {
            0
        }
    }
}

proof fn how_many_in_parts(a: Seq<PointerEvent>, b: Seq<PointerEvent>, kind: EventKind)
    ensures
        how_many(a + b, kind) == how_many(a, kind) + how_many(b, kind),
    decreases a.len(),
{
    if a.len() == 0 {
        assert(a + b =~= b);
    } else {
        assert((a + b).skip(1) =~= a.skip(1) + b);
        how_many_in_parts(a.skip(1), b, kind);
    }
}

/// How many samples have a contact and follow none. `held` says whether there was one before.
pub open spec fn contacts_begun(held: bool, samples: Seq<Option<TouchPoint>>) -> nat
    decreases samples.len(),
{
    if samples.len() == 0 {
        0
    } else {
        contacts_begun(samples[0] is Some, samples.skip(1)) + if !held && samples[0] is Some {
            1nat
        } else {
            0
        }
    }
}

/// How many samples have no contact and follow one.
pub open spec fn contacts_ended(held: bool, samples: Seq<Option<TouchPoint>>) -> nat
    decreases samples.len(),
{
    if samples.len() == 0 {
        0
    } else {
        contacts_ended(samples[0] is Some, samples.skip(1)) + if held && samples[0] is None {
            1nat
        } else {
            0
        }
    }
}

/// A coordinate, or the limit where it is beyond that.
pub open spec fn up_to(coordinate: int, limit: int) -> int {
    if coordinate < limit {
        coordinate
    } else {
        limit
    }
}

/// How many samples have a contact that follows one at another place of a display whose last column
/// and row are `max_x` and `max_y`. `held` is the place of the contact before.
pub open spec fn places_changed(
    max_x: int,
    max_y: int,
    held: Option<(int, int)>,
    samples: Seq<Option<TouchPoint>>,
) -> nat
    decreases samples.len(),
{
    if samples.len() == 0 {
        0
    } else {
        let now = match samples[0] {
            Some(point) => Some((up_to(point.x as int, max_x), up_to(point.y as int, max_y))),
            None => None,
        };
        places_changed(max_x, max_y, now, samples.skip(1)) + if held is Some && now is Some && held
            != now {
            1nat
        } else {
            0
        }
    }
}

/// The coordinates of a remembered contact.
pub open spec fn coordinates(last: Option<PointerPosition>) -> Option<(int, int)> {
    match last {
        Some(place) => Some((place.x as int, place.y as int)),
        None => None,
    }
}

proof fn one_sample_is_counted(state: TouchState, sample: Option<TouchPoint>, kind: EventKind)
    ensures
        how_many(events_of(state.update(sample)), kind) == (match kind {
            EventKind::Press => if state.last is None && sample is Some {
                1nat
            } else {
                0
            },
            EventKind::Move => if state.last is Some && sample is Some && state.after(sample).last
                != state.last {
                1
            } else {
                0
            },
            EventKind::Release | EventKind::Exit => if state.last is Some && sample is None {
                1
            } else {
                0
            },
        }),
{
    reveal_with_fuel(how_many, 3);
    let events = events_of(state.update(sample));
    if events.len() == 2 {
        assert(events.skip(1)[0] == events[1]);
        assert(events.skip(1).skip(1) =~= seq![]);
    } else if events.len() == 1 {
        assert(events.skip(1) =~= seq![]);
    }
}

/// Whatever is sampled, the window is told of as many presses as there are samples with a contact
/// that follow none, of as many releases, each with an exit, as there are samples without a contact
/// that follow one, and of as many moves as a held contact changes its place.
pub proof fn events_are_as_many_as_transitions(state: TouchState, samples: Seq<Option<TouchPoint>>)
    ensures
        how_many(events_for(state, samples), EventKind::Press) == contacts_begun(
            state.last is Some,
            samples,
        ),
        how_many(events_for(state, samples), EventKind::Release) == contacts_ended(
            state.last is Some,
            samples,
        ),
        how_many(events_for(state, samples), EventKind::Exit) == contacts_ended(
            state.last is Some,
            samples,
        ),
        how_many(events_for(state, samples), EventKind::Move) == places_changed(
            state.max_x as int,
            state.max_y as int,
            coordinates(state.last),
            samples,
        ),
    decreases samples.len(),
{
    if samples.len() > 0 {
        let sample = samples[0];
        let next = state.after(sample);
        let rest = samples.skip(1);
        let now = events_of(state.update(sample));
        events_are_as_many_as_transitions(next, rest);
        how_many_in_parts(now, events_for(next, rest), EventKind::Press);
        how_many_in_parts(now, events_for(next, rest), EventKind::Release);
        how_many_in_parts(now, events_for(next, rest), EventKind::Exit);
        how_many_in_parts(now, events_for(next, rest), EventKind::Move);
        one_sample_is_counted(state, sample, EventKind::Press);
        one_sample_is_counted(state, sample, EventKind::Release);
        one_sample_is_counted(state, sample, EventKind::Exit);
        one_sample_is_counted(state, sample, EventKind::Move);
        if let (Some(held), Some(place)) = (state.last, next.last) {
            assert(coordinates(state.last) == coordinates(next.last) ==> held.x == place.x && held.y
                == place.y);
        }
    }
}

/// The samples that steps read, without the reads that failed.
pub open spec fn samples_of<TE, DE>(steps: Seq<Step<TE, DE>>) -> Seq<Option<TouchPoint>>
    decreases steps.len(),
{
    if steps.len() == 0 {
        seq![]
    } else {
        match steps[0].sample {
            Ok(sample) => seq![sample] + samples_of(steps.skip(1)),
            Err(_) => samples_of(steps.skip(1)),
        }
    }
}

proof fn steps_announce_their_samples<TE, DE>(start: TouchState, steps: Seq<Step<TE, DE>>)
    requires
        in_sequence(start, steps),
    ensures
        received_in(steps) == events_for(start, samples_of(steps)),
    decreases steps.len(),
{
    if steps.len() > 0 {
        let step = steps[0];
        let rest = steps.skip(1);
        steps_announce_their_samples(step.after, rest);
        a_step_announces_its_sample(
            step.before,
            step.poll_interval,
            step.sample,
            step.drawn,
            step.after,
            step.result,
            step.calls,
        );
        match step.sample {
            Ok(sample) => {
                assert(samples_of(steps).skip(1) =~= samples_of(rest));
            },
            Err(_) => {
                assert(received_in(steps) =~= received_in(rest));
            },
        }
    }
}

/// Over any number of steps in which the window refuses no event, it receives one press for each
/// contact that begins, one release and one exit for each that ends, and one move for each change
/// of a held contact's place, as the samples show them.
pub proof fn steps_deliver_each_transition_once<TE, DE>(
    start: TouchState,
    steps: Seq<Step<TE, DE>>,
)
    requires
        in_sequence(start, steps),
    ensures
        how_many(received_in(steps), EventKind::Press) == contacts_begun(
            start.last is Some,
            samples_of(steps),
        ),
        how_many(received_in(steps), EventKind::Release) == contacts_ended(
            start.last is Some,
            samples_of(steps),
        ),
        how_many(received_in(steps), EventKind::Exit) == contacts_ended(
            start.last is Some,
            samples_of(steps),
        ),
        how_many(received_in(steps), EventKind::Move) == places_changed(
            start.max_x as int,
            start.max_y as int,
            coordinates(start.last),
            samples_of(steps),
        ),
{
    steps_announce_their_samples(start, steps);
    events_are_as_many_as_transitions(start, samples_of(steps));
}

/// A step whose read succeeds and in which no event is refused draws once: after the timers were
/// updated, the touch input was read and the last event was dispatched, and before the timer is
/// asked for, whatever the sample is. Only where drawing failed is the timer not asked for.
pub proof fn a_step_draws_once<TE, DE>(
    before: TouchState,
    poll_interval: Duration,
    sample: Option<TouchPoint>,
    drawn: Option<Option<DE>>,
    after: TouchState,
    result: Result<Duration, StepError<TE, DE>>,
    calls: Seq<PlatformCall>,
)
    requires
        stepped(before, poll_interval, Ok::<Option<TouchPoint>, TE>(sample), drawn, after, result, calls),
        !(result matches Err(StepError::Platform(_))),
    ensures
        calls.len() >= 3,
        calls[0] == PlatformCall::UpdateTimers,
        calls[1] == PlatformCall::ReadTouch,
        exists|d: int|
            2 <= d < calls.len() && #[trigger] calls[d] == PlatformCall::Draw(drawn is Some) && (
            forall|i: int|
                2 <= i < d ==> (#[trigger] calls[i] matches PlatformCall::Dispatch(_, None))) && (
            forall|i: int|
                d < i < calls.len() ==> #[trigger] calls[i] is QueryTimer) && (if result is Ok {
                calls.len() == d + 2
            } else {
                calls.len() == d + 1
            }),
        result is Err <==> (drawn matches Some(Some(_))),
        result matches Err(error) ==> (error matches StepError::Display(cause) && drawn == Some(
            Some(cause),
        )),
{
    let events = events_of(before.update(sample));
    let d = 2 + events.len() as int;
    match result {
        Ok(wait) => {
            let _ = timer_of(poll_interval, wait, events, drawn is Some, calls);
        },
        _ => {},
    }
    assert(calls[d] == PlatformCall::Draw(drawn is Some));
}

proof fn timer_of(
    poll_interval: Duration,
    wait: Duration,
    events: Seq<PointerEvent>,
    drawn: bool,
    calls: Seq<PlatformCall>,
) -> (timer: Option<Duration>)
    requires
        exists|timer: Option<Duration>| #[trigger]
            wait_for(timer, poll_interval) == wait && calls == step_calls(
                accepted(events) + seq![PlatformCall::Draw(drawn), PlatformCall::QueryTimer(timer)],
            ),
    ensures
        wait_for(timer, poll_interval) == wait,
        calls == step_calls(
            accepted(events) + seq![PlatformCall::Draw(drawn), PlatformCall::QueryTimer(timer)],
        ),
{
    choose|timer: Option<Duration>| #[trigger]
        wait_for(timer, poll_interval) == wait && calls == step_calls(
            accepted(events) + seq![PlatformCall::Draw(drawn), PlatformCall::QueryTimer(timer)],
        )
}

/// The wait that a step returns is the poll interval or the time until the timer that was asked for
/// last, and longer than neither.
pub proof fn a_step_returns_the_shorter_wait<TE, DE>(
    before: TouchState,
    poll_interval: Duration,
    sample: Result<Option<TouchPoint>, TE>,
    drawn: Option<Option<DE>>,
    after: TouchState,
    wait: Duration,
    calls: Seq<PlatformCall>,
)
    requires
        stepped(
            before,
            poll_interval,
            sample,
            drawn,
            after,
            Ok::<Duration, StepError<TE, DE>>(wait),
            calls,
        ),
    ensures
        calls.last() matches PlatformCall::QueryTimer(timer) && (wait == poll_interval || timer
            == Some(wait)) && duration_nanos(wait) <= duration_nanos(poll_interval) && (
        timer matches Some(due) ==> duration_nanos(wait) <= duration_nanos(due)),
{
}

/// What a step dispatches is the difference between the contact that was seen before it and the one
/// that is seen after it: a press where one appeared, a move where it is elsewhere, a release and
/// an exit where it is gone, and nothing where it is the same. The drawing follows at once.
pub proof fn a_step_dispatches_the_difference<TE, DE>(
    before: TouchState,
    poll_interval: Duration,
    sample: Option<TouchPoint>,
    drawn: Option<Option<DE>>,
    after: TouchState,
    result: Result<Duration, StepError<TE, DE>>,
    calls: Seq<PlatformCall>,
)
    requires
        stepped(before, poll_interval, Ok::<Option<TouchPoint>, TE>(sample), drawn, after, result, calls),
        !(result matches Err(StepError::Platform(_))),
    ensures
        after.last is Some <==> sample is Some,
        after.max_x == before.max_x && after.max_y == before.max_y,
        sample matches Some(point) ==> (after.last matches Some(place) && place.x == up_to(
            point.x as int,
            before.max_x as int,
        ) && place.y == up_to(point.y as int, before.max_y as int)),
        match (before.last, after.last) {
            (None, None) => calls[2] is Draw,
            (None, Some(place)) => calls[2] == PlatformCall::Dispatch(
                PointerEvent::Pressed { position: place, button: PointerButton::Left },
                None,
            ) && calls[3] is Draw,
            (Some(held), Some(place)) => if held == place {
                calls[2] is Draw
            } else {
                calls[2] == PlatformCall::Dispatch(PointerEvent::Moved { position: place }, None)
                    && calls[3] is Draw
            },
            (Some(held), None) => calls[2] == PlatformCall::Dispatch(
                PointerEvent::Released { position: held, button: PointerButton::Left },
                None,
            ) && calls[3] == PlatformCall::Dispatch(PointerEvent::Exited, None) && calls[4] is Draw,
        },
{
    let events = events_of(before.update(sample));
    if let Ok(wait) = result {
        let _ = timer_of(poll_interval, wait, events, drawn is Some, calls);
    }
    assert(calls[2 + events.len() as int] is Draw);
}

/// A step fails with a refusal only if the window gave it for the event that was dispatched last,
/// after it accepted the ones before: no more than a release and its exit. Nothing is drawn then.
pub proof fn a_refusal_ends_a_step<TE, DE>(
    before: TouchState,
    poll_interval: Duration,
    sample: Result<Option<TouchPoint>, TE>,
    drawn: Option<Option<DE>>,
    after: TouchState,
    error: PlatformError,
    calls: Seq<PlatformCall>,
)
    requires
        stepped(
            before,
            poll_interval,
            sample,
            drawn,
            after,
            Err::<Duration, StepError<TE, DE>>(StepError::Platform(error)),
            calls,
        ),
    ensures
        sample is Ok,
        calls[0] == PlatformCall::UpdateTimers,
        calls[1] == PlatformCall::ReadTouch,
        calls.last() matches PlatformCall::Dispatch(_, Some(refusal)) && refusal == error,
        calls.len() == 3 || (calls.len() == 4 && before.last is Some && sample == Ok::<
            Option<TouchPoint>,
            TE,
        >(None) && calls[2] == PlatformCall::Dispatch(
            PointerEvent::Released { position: before.last->0, button: PointerButton::Left },
            None,
        ) && (calls[3] matches PlatformCall::Dispatch(PointerEvent::Exited, _))),
        after.last is Some <==> sample->Ok_0 is Some,
        calls.len() == 3 ==> calls[2]->Dispatch_0 == (match (before.last, after.last) {
            (None, Some(place)) => PointerEvent::Pressed {
                position: place,
                button: PointerButton::Left,
            },
            (Some(_), Some(place)) => PointerEvent::Moved { position: place },
            (Some(held), None) => PointerEvent::Released {
                position: held,
                button: PointerButton::Left,
            },
            (None, None) => PointerEvent::Exited,
        }),
        before.last != after.last,
{
    let events = events_of(before.update(sample->Ok_0));
    let result = Err::<Duration, StepError<TE, DE>>(StepError::Platform(error));
    assert(result->Err_0->Platform_0 == error);
    let n = choose|n: int|
        0 <= n < events.len() && calls == step_calls(#[trigger] refused_at(events, n, error));
    assert(calls == step_calls(refused_at(events, n, error)));
}

/// The touch part of a step reads once and then dispatches the difference: all of it where it
/// succeeds. It fails with the error of the read, or with the refusal of the event dispatched last.
pub proof fn a_read_is_dispatched<TE, DE>(
    before: TouchState,
    sample: Result<Option<TouchPoint>, TE>,
    after: TouchState,
    result: Result<(), StepError<TE, DE>>,
    calls: Seq<PlatformCall>,
    calls_after: Seq<PlatformCall>,
)
    requires
        touch_dispatched(before, sample, after, result, calls, calls_after),
    ensures
        calls_after.len() > calls.len(),
        calls_after[calls.len() as int] == PlatformCall::ReadTouch,
        sample matches Err(cause) ==> (result matches Err(StepError::Touch(error)) && error == cause)
            && after == before && calls_after.len() == calls.len() + 1,
        sample matches Ok(point) ==> (after.last is Some <==> point is Some) && !(
        result matches Err(StepError::Touch(_))) && !(result matches Err(StepError::Display(_))),
        result matches Err(StepError::Platform(error)) ==> (
        calls_after.last() matches PlatformCall::Dispatch(_, Some(refusal)) && refusal == error),
        result is Ok ==> match (before.last, after.last) {
            (None, None) => calls_after.len() == calls.len() + 1,
            (None, Some(place)) => calls_after.len() == calls.len() + 2 && calls_after.last()
                == PlatformCall::Dispatch(
                PointerEvent::Pressed { position: place, button: PointerButton::Left },
                None,
            ),
            (Some(held), Some(place)) => if held == place {
                calls_after.len() == calls.len() + 1
            } else {
                calls_after.len() == calls.len() + 2 && calls_after.last()
                    == PlatformCall::Dispatch(PointerEvent::Moved { position: place }, None)
            },
            (Some(held), None) => calls_after.len() == calls.len() + 3 && calls_after[calls.len()
                + 1int] == PlatformCall::Dispatch(
                PointerEvent::Released { position: held, button: PointerButton::Left },
                None,
            ) && calls_after.last() == PlatformCall::Dispatch(PointerEvent::Exited, None),
        },
{
    if let Err(StepError::Platform(error)) = result {
        let events = events_of(before.update(sample->Ok_0));
        assert(result->Err_0->Platform_0 == error);
        let n = choose|n: int|
            0 <= n < events.len() && calls_after == calls.push(PlatformCall::ReadTouch)
                + #[trigger] refused_at(events, n, error);
        assert(calls_after == calls.push(PlatformCall::ReadTouch) + refused_at(events, n, error));
    }
}

/// Rendering fails if and only if the window was drawn and the display gave an error, which it is
/// then.
pub proof fn rendering_fails_with_the_display<TE, DE>(drawn: Option<Option<DE>>, error: DE)
    ensures
        rendered::<TE, DE>(drawn) is Err <==> (drawn matches Some(Some(_))),
        drawn == Some(Some(error)) ==> (rendered::<TE, DE>(drawn) matches Err(
            StepError::Display(cause),
        ) && cause == error),
{
}

/// The error of a result is what it failed with, and there is none where it did not.
pub proof fn an_error_is_what_it_failed_with<E>(result: Result<(), E>)
    ensures
        result is Ok <==> error_of(result) is None,
        result matches Err(error) ==> error_of(result) == Some(error),
{
}

/// The columns `start` up to `end` of a line are filled where they are: the leftmost column is
/// `start`, the row is the line, the width is the number of columns and the height is one.
pub proof fn columns_are_filled_where_they_are(line: usize, start: usize, end: usize)
    requires
        start <= end,
    ensures
        start <= i32::MAX ==> line_area(line, start, end).x as int == start as int,
        line <= i32::MAX ==> line_area(line, start, end).y as int == line as int,
        end - start <= u32::MAX ==> line_area(line, start, end).width as int == end - start,
        line_area(line, start, end).height == 1,
{
}

/// The color at index `i` lands on column `start + i`, and it is the color of the pixel that was
/// rendered there: five bits of red, six of green and five of blue, none lost.
pub proof fn every_pixel_lands_on_its_column(
    buffer: Seq<Rgb565Pixel>,
    line: usize,
    start: usize,
    end: usize,
    i: int,
)
    requires
        start <= end <= buffer.len(),
        end <= i32::MAX,
        line <= i32::MAX,
        0 <= i < end - start,
    ensures
        ({
            let area = line_area(line, start, end);
            let colors = colors_of(buffer.subrange(start as int, end as int));
            &&& colors.len() == area.width * area.height
            &&& area.x <= area.x + i < area.x + area.width
            &&& area.x + i == start + i
            &&& area.y as int == line as int
            &&& colors[i].r < 32 && colors[i].g < 64 && colors[i].b < 32
            &&& colors[i].r * 2048 + colors[i].g * 32 + colors[i].b == pixel_bits(buffer[start + i])
        }),
{
}

/// A construction that succeeds gives its window the width and the height that the display has. The
/// line buffer is as long as the window is wide, blank, and the touch input is limited to the same
/// pixels. Display, touch input, runtime, interval, component and handle are those that were given.
pub proof fn a_window_has_the_size_of_its_display<
    DISPLAY,
    TOUCH,
    RUNTIME: McuRuntime,
    App,
    PANEL,
    HANDLE,
    DE,
    RE,
    I,
    S,
    A,
>(
    builder: AdapterBuilder<DISPLAY, TOUCH, RUNTIME>,
    init: I,
    install: S,
    app_factory: A,
    built: BuiltApp<App, HANDLE>,
) where
    I: FnOnce(DISPLAY) -> Result<InitializedDisplay<PANEL>, InitError<DE, RE>>,
    S: FnOnce(McuBackend<PANEL, TOUCH, RUNTIME>) -> Result<HANDLE, SetPlatformError>,
    A: FnOnce() -> Result<App, PlatformError>,

    requires
        builder.builds(init, install, app_factory, Ok::<_, NotBuilt<DE, RE>>(built)),
    ensures
        app_factory.ensures((), Ok(built.app)),
        exists|panel: InitializedDisplay<PANEL>, backend: McuBackend<PANEL, TOUCH, RUNTIME>|
            #![trigger init.ensures((builder.display(),), Ok(panel)), install.ensures((backend,), Ok(built.handle))]
            {
                &&& init.ensures((builder.display(),), Ok(panel))
                &&& install.ensures((backend,), Ok(built.handle))
                &&& built.window.sized() matches Some(sized)
                &&& sized.size().0 == panel.width
                &&& sized.size().1 == panel.height
                &&& built.window.window() == backend.event_loop.window()
                &&& backend.display.display == panel.display
                &&& backend.display.line_buffer@.len() == sized.size().0
                &&& forall|i: int|
                    0 <= i < panel.width ==> pixel_bits(
                        #[trigger] backend.display.line_buffer@[i],
                    ) == 0
                &&& backend.event_loop.input() == builder.touch()
                &&& backend.event_loop.touch().last is None
                &&& 1 <= panel.width <= 65_536 ==> backend.event_loop.touch().max_x + 1
                    == sized.size().0
                &&& 1 <= panel.height <= 65_536 ==> backend.event_loop.touch().max_y + 1
                    == sized.size().1
                &&& backend.event_loop.poll_interval() == builder.interval()
                &&& backend.event_loop.calls() == seq![PlatformCall::Open(RepaintBuffer::Reused)]
                &&& backend.clock.runtime() == builder.runtime()
                &&& RUNTIME::now.ensures((&builder.runtime(),), backend.clock.started_at())
            },
{
    let (panel, backend) = choose|
        panel: InitializedDisplay<PANEL>,
        backend: McuBackend<PANEL, TOUCH, RUNTIME>,
    |
        init.ensures((builder.display(),), Ok(panel)) && #[trigger] builder.assembles(
            panel,
            backend,
        ) && install.ensures((backend,), Ok(built.handle)) && built.window.window()
            == backend.event_loop.window() && built.window.size() == Some(
            (panel.width, panel.height),
        );
    assert(init.ensures((builder.display(),), Ok(panel)));
    assert(install.ensures((backend,), Ok(built.handle)));
}

/// A construction fails only because a part of it did, with that part's error, and so succeeds where
/// no part fails. The parts before it succeeded, and the right to size the window is unused.
pub proof fn a_construction_fails_with_its_part<
    DISPLAY,
    TOUCH,
    RUNTIME: McuRuntime,
    App,
    PANEL,
    HANDLE,
    DE,
    RE,
    I,
    S,
    A,
>(
    builder: AdapterBuilder<DISPLAY, TOUCH, RUNTIME>,
    init: I,
    install: S,
    app_factory: A,
    failed: NotBuilt<DE, RE>,
) where
    I: FnOnce(DISPLAY) -> Result<InitializedDisplay<PANEL>, InitError<DE, RE>>,
    S: FnOnce(McuBackend<PANEL, TOUCH, RUNTIME>) -> Result<HANDLE, SetPlatformError>,
    A: FnOnce() -> Result<App, PlatformError>,

    requires
        builder.builds(init, install, app_factory, Err::<BuiltApp<App, HANDLE>, _>(failed)),
    ensures
        failed.error matches AdapterError::Display(error) ==> init.ensures(
            (builder.display(),),
            Err(error),
        ),
        !(failed.error is Display) ==> exists|panel: InitializedDisplay<PANEL>| #[trigger]
            init.ensures((builder.display(),), Ok(panel)),
        failed.error matches AdapterError::Platform(error) ==> exists|
            backend: McuBackend<PANEL, TOUCH, RUNTIME>,
        | #[trigger] install.ensures((backend,), Err(error)),
        failed.error matches AdapterError::App(error) ==> app_factory.ensures((), Err(error))
            && exists|backend: McuBackend<PANEL, TOUCH, RUNTIME>, handle: HANDLE| #[trigger]
            install.ensures((backend,), Ok(handle)),
        failed.window matches Some(window) ==> window.sized() is None,
{
}

/// What a construction returns of the component is the component, or the error that it failed with.
pub proof fn a_component_is_returned_unchanged<App, HANDLE, DE, RE>(
    built: Result<BuiltApp<App, HANDLE>, NotBuilt<DE, RE>>,
)
    ensures
        built matches Ok(done) ==> (app_of(built) matches Ok(app) && app == done.app),
        built matches Err(failed) ==> (app_of(built) matches Err(error) && error == failed.error),
{
}

} // verus!
