//! The rights to a Slint window, and the calls into Slint that are made by them.
//!
//! Opening a window gives each right to it once: a [`SlintWindow`] is the right to operate it, which
//! a [`TouchWindow`] takes up; a [`WindowSizer`] is the right to size it and is used up by that.
//! What was done through them they remember, for the proofs: each call into Slint is noted where it
//! is made. What Slint or the application does to the window itself is not noted.

use core::time::Duration;
use std::rc::Rc;

use i_slint_renderer_software::{MinimalSoftwareWindow, RepaintBufferType, SoftwareRenderer};
use slint::platform::{PlatformError, PointerEventButton, WindowEvent};
use slint::{LogicalPosition, PhysicalSize};
use vstd::prelude::*;

use crate::error::error_of;
use crate::platform::{PlatformCall, RepaintBuffer};
use crate::pointer::{PointerButton, PointerEvent};
use crate::touch::{PointerPosition, TouchInput, TouchPoint, TouchTracker, TouchUpdate};

verus! {

/// The right to operate a Slint window. It remembers, for the proofs, the calls that were made
/// through it. There is one for each window.
pub struct SlintWindow {
    window: Rc<MinimalSoftwareWindow>,
    calls: Ghost<Seq<PlatformCall>>,
}

/// The right to give a Slint window its size, once. There is one for each window.
pub struct WindowSizer {
    window: Rc<MinimalSoftwareWindow>,
}

/// A Slint window that was given a size by its [`WindowSizer`].
pub struct SizedWindow {
    window: Rc<MinimalSoftwareWindow>,
    size: Ghost<(u32, u32)>,
}

/// The rights to a window that was just opened.
pub struct OpenedWindow {
    /// The handle for the event loop.
    pub window: SlintWindow,
    /// The right to size the window.
    pub sizer: WindowSizer,
}

/// `MinimalSoftwareWindow::new`: a new window that is drawn into a buffer of the given kind, with
/// this call as the only one made. Nothing else is claimed of the window.
#[verifier::external_body]
pub(crate) fn new_window(buffer: RepaintBuffer) -> (opened: OpenedWindow)
    ensures
        opened.window.calls() == seq![PlatformCall::Open(buffer)],
        opened.sizer.window() == opened.window.window(),
{
    let window = MinimalSoftwareWindow::new(
        match buffer {
            RepaintBuffer::New => RepaintBufferType::NewBuffer,
            RepaintBuffer::Reused => RepaintBufferType::ReusedBuffer,
            RepaintBuffer::Swapped => RepaintBufferType::SwappedBuffers,
        },
    );
    OpenedWindow {
        sizer: WindowSizer { window: window.clone() },
        window: SlintWindow { window, calls: Ghost(Seq::empty().push(PlatformCall::Open(buffer))) },
    }
}

/// `Rc::clone`: another reference to the same window.
#[verifier::external_body]
pub(crate) fn share_window(window: &Rc<MinimalSoftwareWindow>) -> (shared: Rc<MinimalSoftwareWindow>)
    ensures
        shared == *window,
{
    window.clone()
}

/// `slint::Window::is_visible`: whether the window is shown. It rests on the application, so
/// nothing is claimed of the answer.
#[verifier::external_body]
pub(crate) fn is_visible(window: &MinimalSoftwareWindow) -> (visible: bool) {
    window.is_visible()
}

/// `MinimalSoftwareWindow::set_size` to a `slint::PhysicalSize`. It returns nothing, and only that
/// it was called with this size is claimed.
#[verifier::external_body]
pub(crate) fn set_size(sizer: WindowSizer, width: u32, height: u32) -> (sized: SizedWindow)
    ensures
        sized.window() == sizer.window(),
        sized.size() == (width, height),
{
    sizer.window.set_size(PhysicalSize::new(width, height));
    SizedWindow { window: sizer.window, size: Ghost((width, height)) }
}

impl SlintWindow {
    /// The window.
    pub closed spec fn window(self) -> Rc<MinimalSoftwareWindow> {
        self.window
    }

    /// The calls that were made through this handle, in order.
    pub closed spec fn calls(self) -> Seq<PlatformCall> {
        self.calls@
    }

    /// The reference to the window.
    pub(crate) fn reference(&self) -> (window: &Rc<MinimalSoftwareWindow>)
        ensures
            *window == self.window(),
    {
        &self.window
    }
}

impl WindowSizer {
    /// The window.
    pub closed spec fn window(self) -> Rc<MinimalSoftwareWindow> {
        self.window
    }

    /// The reference to the window.
    pub(crate) fn reference(&self) -> (window: &Rc<MinimalSoftwareWindow>)
        ensures
            *window == self.window(),
    {
        &self.window
    }
}

impl SizedWindow {
    /// The window.
    pub closed spec fn window(self) -> Rc<MinimalSoftwareWindow> {
        self.window
    }

    /// The size that the window was given, in physical pixels.
    pub closed spec fn size(self) -> (u32, u32) {
        self.size@
    }

    /// The reference to the window.
    pub(crate) fn reference(&self) -> (window: &Rc<MinimalSoftwareWindow>)
        ensures
            *window == self.window(),
    {
        &self.window
    }
}

/// A window together with the touch input that operates it, which is sampled here alone.
pub struct TouchWindow<T> {
    window: SlintWindow,
    touch: TouchTracker<T>,
}

impl<T> TouchWindow<T> {
    /// The window.
    pub closed spec fn window(self) -> Rc<MinimalSoftwareWindow> {
        self.window.window
    }

    /// The tracker of the touch samples.
    pub closed spec fn tracker(self) -> TouchTracker<T> {
        self.touch
    }

    /// The calls that were made through this handle, in order.
    pub closed spec fn calls(self) -> Seq<PlatformCall> {
        self.window.calls@
    }

    /// Whether the window and the touch input are those of `other`.
    pub open spec fn stays_as(self, other: Self) -> bool {
        self.window() == other.window() && self.tracker() == other.tracker()
    }

    pub(crate) fn new(window: SlintWindow, touch: TouchTracker<T>) -> (operated: Self)
        ensures
            operated.window() == window.window(),
            operated.calls() == window.calls(),
            operated.tracker() == touch,
    {
        TouchWindow { window, touch }
    }

    /// The reference to the window.
    pub(crate) fn reference(&self) -> (window: &Rc<MinimalSoftwareWindow>)
        ensures
            *window == self.window(),
    {
        &self.window.window
    }

    /// `slint::platform::update_timers_and_animations`. It returns nothing, and of what it does
    /// only that it was called is claimed.
    ///
    /// Slint panics where this is called from inside a timer callback, or where the platform's
    /// clock ran backwards since the last time. Both rest on Slint's own state.
    #[verifier::external_body]
    pub(crate) fn update_timers(&mut self)
        ensures
            final(self).stays_as(*old(self)),
            final(self).calls() == old(self).calls().push(PlatformCall::UpdateTimers),
    {
        slint::platform::update_timers_and_animations();
        self.window.calls = Ghost(self.window.calls@.push(PlatformCall::UpdateTimers));
    }

    /// `slint::Window::try_dispatch_event`, with the event given as Slint's own. What the scene
    /// makes of it, and so whether it fails and how, rests on the application; only that this
    /// event was dispatched and that this error, if any, came back is claimed.
    ///
    /// Slint panics where the platform's clock ran backwards since the last time, which rests on
    /// Slint's own state.
    #[verifier::external_body]
    pub(crate) fn dispatch(&mut self, event: PointerEvent) -> (result: Result<(), PlatformError>)
        ensures
            final(self).stays_as(*old(self)),
            final(self).calls() == old(self).calls().push(
                PlatformCall::Dispatch(event, error_of(result)),
            ),
    {
        let at = |p: PointerPosition| LogicalPosition::new(p.x.into(), p.y.into());
        let pressed_by = |b: PointerButton|
            match b { PointerButton::Left => PointerEventButton::Left };
        let result = self.window.window.try_dispatch_event(match event {
            PointerEvent::Pressed { position: p, button: b } => WindowEvent::PointerPressed {
                position: at(p), button: pressed_by(b) },
            PointerEvent::Moved { position: p } => WindowEvent::PointerMoved { position: at(p) },
            PointerEvent::Released { position: p, button: b } => WindowEvent::PointerReleased {
                position: at(p), button: pressed_by(b) },
            PointerEvent::Exited => WindowEvent::PointerExited,
        });
        self.window.calls = Ghost(self.window.calls@.push(PlatformCall::Dispatch(event, error_of(result))));
        result
    }

    /// `MinimalSoftwareWindow::draw_if_needed`: where the window needs to be redrawn, `draw` is
    /// called once with the window's renderer; otherwise it is not called. The result is what
    /// `draw` returned, if it was called. Whether it is called rests on the window.
    #[verifier::external_body]
    pub(crate) fn draw<R, F: FnOnce(&SoftwareRenderer) -> R>(&mut self, draw: F) -> (drawn: Option<
        R,
    >)
        requires
            forall|renderer: &SoftwareRenderer| #[trigger] draw.requires((renderer,)),
        ensures
            final(self).stays_as(*old(self)),
            final(self).calls() == old(self).calls().push(PlatformCall::Draw(drawn is Some)),
            drawn matches Some(result) ==> exists|renderer: &SoftwareRenderer| #[trigger]
                draw.ensures((renderer,), result),
    {
        let mut drawn = None;
        self.window.window.draw_if_needed(|renderer| drawn = Some(draw(renderer)));
        self.window.calls = Ghost(self.window.calls@.push(PlatformCall::Draw(drawn is Some)));
        drawn
    }

    /// `slint::platform::duration_until_next_timer_update`: the time until the nearest timer, if
    /// one is active. The answer rests on the timers that the application started and on the time,
    /// so of it only that it was given is claimed.
    #[verifier::external_body]
    pub(crate) fn next_timer(&mut self) -> (timer: Option<Duration>)
        ensures
            final(self).stays_as(*old(self)),
            final(self).calls() == old(self).calls().push(PlatformCall::QueryTimer(timer)),
    {
        let timer = slint::platform::duration_until_next_timer_update();
        self.window.calls = Ghost(self.window.calls@.push(PlatformCall::QueryTimer(timer)));
        timer
    }
}

impl<T: TouchInput> TouchWindow<T> {
    /// Samples the touch input, notes that it did, and says how the pointer changed.
    pub(crate) fn poll_touch(&mut self) -> (result: Result<TouchUpdate, T::Error>)
        ensures
            final(self).window() == old(self).window(),
            final(self).calls() == old(self).calls().push(PlatformCall::ReadTouch),
            exists|sample: Result<Option<TouchPoint>, T::Error>, input: &mut T| #[trigger]
                T::read_touch.ensures((input,), sample) && *input == old(self).tracker().input()
                    && *final(input) == final(self).tracker().input()
                    && old(self).tracker()@.polled(sample, final(self).tracker()@, result),
            old(self).tracker()@.wf() ==> final(self).tracker()@.wf(),
    {
        let result = self.touch.poll();
        self.window.calls = Ghost(self.window.calls@.push(PlatformCall::ReadTouch));
        result
    }
}

} // verus!
