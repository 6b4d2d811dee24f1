//! Touch sampling: a polled contact becomes pointer transitions.

use core::convert::Infallible;
use vstd::prelude::*;

verus! {

/// A touch position in the logical pixel coordinate system of the configured display.
///
/// `(0, 0)` is the top-left corner. A touch driver is responsible for calibration and for
/// applying the rotation and mirroring that was configured on the display. Coordinates
/// outside the display are clamped by [`TouchTracker`].
#[derive(Clone, Copy, Debug, Default, PartialEq, Eq, Structural)]
pub struct TouchPoint {
    /// Horizontal position in logical pixels.
    pub x: u16,
    /// Vertical position in logical pixels.
    pub y: u16,
}

impl TouchPoint {
    /// Creates a touch point from logical display coordinates.
    #[must_use]
    pub fn new(x: u16, y: u16) -> (point: Self)
        ensures
            point == (TouchPoint { x, y }),
    {
        TouchPoint { x, y }
    }
}

/// A polling touch-screen abstraction.
///
/// `Ok(Some(point))` is returned while a finger or stylus touches the screen and `Ok(None)`
/// when there is no contact. Implementations return coordinates in the logical coordinate
/// system of the configured display.
///
/// The library's contracts say of a read what the implementation's own contract says of it, and
/// assume nothing else.
pub trait TouchInput {
    /// Error produced while sampling the touch controller.
    type Error;

    /// Samples the current primary contact.
    fn read_touch(&mut self) -> (sample: Result<Option<TouchPoint>, Self::Error>);
}

/// A touch provider for displays without a touch controller.
#[derive(Clone, Copy, Debug, Default)]
pub struct NoTouch;

impl TouchInput for NoTouch {
    type Error = Infallible;

    fn read_touch(&mut self) -> (sample: Result<Option<TouchPoint>, Self::Error>)
        ensures
            sample == Ok::<Option<TouchPoint>, Infallible>(None),
    {
        Ok(None)
    }
}

/// A pointer position on the display, in logical pixels.
#[derive(Clone, Copy, Debug, PartialEq, Eq, Structural)]
pub struct PointerPosition {
    /// Horizontal position.
    pub x: u16,
    /// Vertical position.
    pub y: u16,
}

impl PointerPosition {
    /// Creates a pointer position.
    #[must_use]
    pub fn new(x: u16, y: u16) -> (position: Self)
        ensures
            position == (PointerPosition { x, y }),
    {
        PointerPosition { x, y }
    }
}

/// How the pointer changed between two samples.
#[derive(Clone, Copy, Debug, PartialEq, Eq, Structural)]
pub enum TouchUpdate {
    /// Nothing changed.
    Unchanged,
    /// A contact appeared.
    Pressed(PointerPosition),
    /// The contact moved.
    Moved(PointerPosition),
    /// The contact was lifted; it was last seen at this position.
    Released(PointerPosition),
}

/// The smaller of two coordinates.
pub open spec fn at_most(coordinate: u16, limit: u16) -> u16 {
    if coordinate <= limit {
        coordinate
    } else {
        limit
    }
}

/// The last coordinate of an axis that is `extent` pixels long, as far as a `u16` can hold it.
pub open spec fn last_coordinate(extent: u32) -> u16 {
    if extent == 0 {
        0
    } else if extent - 1 <= u16::MAX {
        (extent - 1) as u16
    } else {
        u16::MAX
    }
}

/// What a tracker remembers: the contact that was last seen, and the display's last column and row.
pub struct TouchState {
    pub last: Option<PointerPosition>,
    pub max_x: u16,
    pub max_y: u16,
}

impl TouchState {
    /// The state before the first sample on a display of `width` times `height` pixels.
    pub open spec fn initial(width: u32, height: u32) -> TouchState {
        TouchState {
            last: None,
            max_x: last_coordinate(width),
            max_y: last_coordinate(height),
        }
    }

    /// Whether a position lies on the display.
    pub open spec fn on_display(self, position: PointerPosition) -> bool {
        position.x <= self.max_x && position.y <= self.max_y
    }

    /// A remembered contact lies on the display.
    pub open spec fn wf(self) -> bool {
        self.last matches Some(position) ==> self.on_display(position)
    }

    /// The position on the display that is nearest to a touch point.
    pub open spec fn clamp(self, point: TouchPoint) -> PointerPosition {
        PointerPosition { x: at_most(point.x, self.max_x), y: at_most(point.y, self.max_y) }
    }

    /// The contact of a sample, if there is one, as a position on the display.
    pub open spec fn contact(self, sample: Option<TouchPoint>) -> Option<PointerPosition> {
        match sample {
            Some(point) => Some(self.clamp(point)),
            None => None,
        }
    }

    /// The state after a sample: the sample's contact is the one remembered.
    pub open spec fn after(self, sample: Option<TouchPoint>) -> TouchState {
        TouchState { last: self.contact(sample), ..self }
    }

    /// The transition from the remembered contact to the contact of a sample.
    pub open spec fn update(self, sample: Option<TouchPoint>) -> TouchUpdate {
        match (self.last, self.contact(sample)) {
            (None, None) => TouchUpdate::Unchanged,
            (None, Some(position)) => TouchUpdate::Pressed(position),
            (Some(previous), None) => TouchUpdate::Released(previous),
            (Some(previous), Some(position)) => if previous == position {
                TouchUpdate::Unchanged
            } else {
                TouchUpdate::Moved(position)
            },
        }
    }
}

impl TouchState {
    /// How a poll that reads `sample` ends: with the transition, or with the error of a failed
    /// read, which changes nothing.
    pub open spec fn polled<E>(
        self,
        sample: Result<Option<TouchPoint>, E>,
        after: TouchState,
        result: Result<TouchUpdate, E>,
    ) -> bool {
        match sample {
            Ok(point) => {
                &&& result == Ok::<TouchUpdate, E>(self.update(point))
                &&& after == self.after(point)
            },
            Err(error) => {
                &&& result == Err::<TouchUpdate, E>(error)
                &&& after == self
            },
        }
    }
}

/// Turns a sequence of touch samples into pointer transitions.
pub struct TouchTracker<T> {
    touch: T,
    last: Option<PointerPosition>,
    max_x: u16,
    max_y: u16,
}

impl<T> View for TouchTracker<T> {
    type V = TouchState;

    closed spec fn view(&self) -> TouchState {
        TouchState { last: self.last, max_x: self.max_x, max_y: self.max_y }
    }
}

impl<T> TouchTracker<T> {
    /// The touch input that is sampled.
    pub closed spec fn input(self) -> T {
        self.touch
    }

    /// Creates a tracker for a display of `width` times `height` pixels.
    pub fn new(touch: T, width: u32, height: u32) -> (tracker: Self)
        ensures
            tracker.input() == touch,
            tracker@ == TouchState::initial(width, height),
            tracker@.wf(),
            tracker@.last is None,
            1 <= width <= 65_536 ==> tracker@.max_x + 1 == width,
            1 <= height <= 65_536 ==> tracker@.max_y + 1 == height,
    {
        TouchTracker {
            touch,
            last: None,
            max_x: Self::last_index(width),
            max_y: Self::last_index(height),
        }
    }

    fn last_index(extent: u32) -> (index: u16)
        ensures
            index == last_coordinate(extent),
    {
        let last: u32 = extent.saturating_sub(1);
        if last <= 0xffff {
            last as u16
        } else {
            u16::MAX
        }
    }

    /// Records one sample and says how the pointer changed.
    pub fn apply_sample(&mut self, sample: Option<TouchPoint>) -> (update: TouchUpdate)
        ensures
            update == old(self)@.update(sample),
            final(self)@ == old(self)@.after(sample),
            final(self).input() == old(self).input(),
            final(self)@.wf(),
    {
        let current = self.to_position(sample);
        self.advance(current)
    }

    /// Places the contact of a sample on the display.
    fn to_position(&self, sample: Option<TouchPoint>) -> (position: Option<PointerPosition>)
        ensures
            position == self@.contact(sample),
    {
        match sample {
            Some(point) => Some(
                PointerPosition {
                    x: if point.x <= self.max_x { point.x } else { self.max_x },
                    y: if point.y <= self.max_y { point.y } else { self.max_y },
                },
            ),
            None => None,
        }
    }

    /// Remembers `current` and says how it differs from what was remembered.
    fn advance(&mut self, current: Option<PointerPosition>) -> (update: TouchUpdate)
        ensures
            final(self)@ == (TouchState { last: current, ..old(self)@ }),
            final(self).input() == old(self).input(),
            update == (match (old(self)@.last, current) {
                (None, None) => TouchUpdate::Unchanged,
                (None, Some(position)) => TouchUpdate::Pressed(position),
                (Some(previous), None) => TouchUpdate::Released(previous),
                (Some(previous), Some(position)) => if previous == position {
                    TouchUpdate::Unchanged
                } else {
                    TouchUpdate::Moved(position)
                },
            }),
    {
        match (self.last, current) {
            (None, None) => TouchUpdate::Unchanged,
            (None, Some(position)) => {
                self.last = Some(position);
                TouchUpdate::Pressed(position)
            },
            (Some(previous), None) => {
                self.last = None;
                TouchUpdate::Released(previous)
            },
            (Some(previous), Some(position)) => {
                if previous == position {
                    TouchUpdate::Unchanged
                } else {
                    self.last = Some(position);
                    TouchUpdate::Moved(position)
                }
            },
        }
    }
}

impl<T: TouchInput> TouchTracker<T> {
    /// Reads one sample and says how the pointer changed. A failed read changes nothing.
    pub fn poll(&mut self) -> (result: Result<TouchUpdate, T::Error>)
        ensures
            exists|sample: Result<Option<TouchPoint>, T::Error>, input: &mut T| #[trigger]
                T::read_touch.ensures((input,), sample) && *input == old(self).input()
                    && *final(input) == final(self).input() && old(self)@.polled(
                    sample,
                    final(self)@,
                    result,
                ),
            old(self)@.wf() ==> final(self)@.wf(),
    {
        match self.read_position() {
            Ok(current) => Ok(self.advance(current)),
            Err(error) => Err(error),
        }
    }

    /// Reads one sample and places its contact on the display.
    pub fn read_position(&mut self) -> (position: Result<Option<PointerPosition>, T::Error>)
        ensures
            final(self)@ == old(self)@,
            exists|sample: Result<Option<TouchPoint>, T::Error>, input: &mut T| #[trigger]
                T::read_touch.ensures((input,), sample) && *input == old(self).input()
                    && *final(input) == final(self).input() && position == (
                match sample {
                    Ok(point) => Ok::<Option<PointerPosition>, T::Error>(old(self)@.contact(point)),
                    Err(error) => Err(error),
                }),
    {
        let input = &mut self.touch;
        let sample = input.read_touch();
        match sample {
            Ok(point) => Ok(self.to_position(point)),
            Err(error) => Err(error),
        }
    }
}

} // verus!
