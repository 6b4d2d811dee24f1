//! Pointer events: what a touch transition means to the window.

use crate::touch::{PointerPosition, TouchUpdate};
use vstd::prelude::*;

verus! {

/// The pointer button that a touch contact operates.
#[derive(Clone, Copy, Debug, PartialEq, Eq, Structural)]
pub enum PointerButton {
    /// The primary button.
    Left,
}

/// A pointer event for the window.
#[derive(Clone, Copy, Debug, PartialEq, Eq, Structural)]
pub enum PointerEvent {
    /// The pointer was pressed.
    Pressed { position: PointerPosition, button: PointerButton },
    /// The pressed pointer moved.
    Moved { position: PointerPosition },
    /// The pointer was released.
    Released { position: PointerPosition, button: PointerButton },
    /// The pointer left the window.
    Exited,
}

impl PointerEvent {
    /// Where the event happened, if it has a place.
    pub open spec fn place(self) -> Option<PointerPosition> {
        match self {
            PointerEvent::Pressed { position, .. } => Some(position),
            PointerEvent::Moved { position } => Some(position),
            PointerEvent::Released { position, .. } => Some(position),
            PointerEvent::Exited => None,
        }
    }
}

/// The events that announce a transition, in order. A touch contact has no hover, so the pointer
/// leaves the window as soon as it is released.
pub open spec fn events_of(update: TouchUpdate) -> Seq<PointerEvent> {
    match update {
        TouchUpdate::Unchanged => seq![],
        TouchUpdate::Pressed(position) => seq![
            PointerEvent::Pressed { position, button: PointerButton::Left },
        ],
        TouchUpdate::Moved(position) => seq![PointerEvent::Moved { position }],
        TouchUpdate::Released(position) => seq![
            PointerEvent::Released { position, button: PointerButton::Left },
            PointerEvent::Exited,
        ],
    }
}

/// Returns the first event that announces a transition, if the transition is one.
pub fn first_event(update: TouchUpdate) -> (event: Option<PointerEvent>)
    ensures
        event == (if events_of(update).len() == 0 {
            None
        } else {
            Some(events_of(update)[0])
        }),
        match update {
            TouchUpdate::Unchanged => event is None,
            TouchUpdate::Pressed(place) => event matches Some(
                PointerEvent::Pressed { position, button: PointerButton::Left },
            ) && position == place,
            TouchUpdate::Moved(place) => event matches Some(PointerEvent::Moved { position })
                && position == place,
            TouchUpdate::Released(place) => event matches Some(
                PointerEvent::Released { position, button: PointerButton::Left },
            ) && position == place,
        },
{
    let button = PointerButton::Left;
    match update {
        TouchUpdate::Unchanged => None,
        TouchUpdate::Pressed(position) => Some(PointerEvent::Pressed { position, button }),
        TouchUpdate::Moved(position) => Some(PointerEvent::Moved { position }),
        TouchUpdate::Released(position) => Some(PointerEvent::Released { position, button }),
    }
}

} // verus!
