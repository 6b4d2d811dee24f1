//! The Slint side: what is called, and how a window is opened and sized.

use core::time::Duration;
use std::rc::Rc;

use i_slint_renderer_software::{MinimalSoftwareWindow, SoftwareRenderer};
use slint::platform::{PlatformError, SetPlatformError};
use vstd::prelude::*;

use crate::pointer::PointerEvent;
use crate::window::{
    is_visible, new_window, set_size, share_window, OpenedWindow, SizedWindow, SlintWindow,
    TouchWindow, WindowSizer,
};

verus! {

/// Slint's window without a windowing system.
#[verifier::external_type_specification]
#[verifier::external_body]
pub struct ExMinimalSoftwareWindow(MinimalSoftwareWindow);

/// Slint's software renderer.
#[verifier::external_type_specification]
#[verifier::external_body]
pub struct ExSoftwareRenderer(SoftwareRenderer);

/// Slint's platform error.
#[verifier::external_type_specification]
#[verifier::external_body]
pub struct ExPlatformError(PlatformError);

/// Slint's answer where a platform was installed before.
#[verifier::external_type_specification]
#[verifier::external_body]
pub struct ExSetPlatformError(SetPlatformError);

/// What the renderer may assume of the buffer that it draws into.
#[derive(Clone, Copy, Debug, PartialEq, Eq, Structural)]
pub enum RepaintBuffer {
    /// The full window is always redrawn.
    New,
    /// The buffer still holds the previous frame, so only what changed is redrawn.
    Reused,
    /// The buffer holds the frame before the previous one.
    Swapped,
}

/// One call that an event loop makes.
pub enum PlatformCall {
    /// The window was created, to be drawn into a buffer of that kind.
    Open(RepaintBuffer),
    /// Timers were activated and animations advanced.
    UpdateTimers,
    /// The touch input was sampled.
    ReadTouch,
    /// A pointer event was dispatched to the window, which refused it with that error, if any.
    Dispatch(PointerEvent, Option<PlatformError>),
    /// The window was asked to draw itself if it needs to, and did or did not.
    Draw(bool),
    /// The time until the nearest timer was asked for, with that answer.
    QueryTimer(Option<Duration>),
}

impl SlintWindow {
    /// Opens a window whose buffer keeps the previous frame.
    pub fn open() -> (opened: OpenedWindow)
        ensures
            opened.window.calls() == seq![PlatformCall::Open(RepaintBuffer::Reused)],
            opened.sizer.window() == opened.window.window(),
    {
        new_window(RepaintBuffer::Reused)
    }

    /// Returns a handle to the window for Slint and for asking whether it is visible.
    pub fn view(&self) -> (view: WindowView)
        ensures
            view.window() == self.window(),
    {
        WindowView { window: share_window(self.reference()) }
    }
}

impl<T> TouchWindow<T> {
    /// Returns a handle to the window for Slint and for asking whether it is visible.
    pub(crate) fn view(&self) -> (view: WindowView)
        ensures
            view.window() == self.window(),
    {
        WindowView { window: share_window(self.reference()) }
    }
}

impl WindowSizer {
    /// Gives the window its size, in physical pixels.
    pub fn resize(self, width: u32, height: u32) -> (settled: SettledWindow)
        ensures
            settled.window() == self.window(),
            settled.size() == Some((width, height)),
            settled.sized() matches Some(sized) && sized.size() == (width, height)
                && sized.window() == self.window(),
    {
        SettledWindow { sizing: Sizing::Given(set_size(self, width, height)) }
    }

    /// Gives up the right, unused.
    pub fn give_up(self) -> (settled: SettledWindow)
        ensures
            settled.window() == self.window(),
            settled.size() is None,
            settled.sized() is None,
    {
        SettledWindow { sizing: Sizing::Unused(self) }
    }
}

/// What became of the right to size a window.
enum Sizing {
    Given(SizedWindow),
    Unused(WindowSizer),
}

/// A Slint window whose right to be sized was used, or is out of use for good.
pub struct SettledWindow {
    sizing: Sizing,
}

impl SettledWindow {
    /// The window.
    pub closed spec fn window(self) -> Rc<MinimalSoftwareWindow> {
        match self.sizing {
            Sizing::Given(sized) => sized.window(),
            Sizing::Unused(sizer) => sizer.window(),
        }
    }

    /// The window as it was sized by that right, if it was used.
    pub closed spec fn sized(self) -> Option<SizedWindow> {
        match self.sizing {
            Sizing::Given(sized) => Some(sized),
            Sizing::Unused(_) => None,
        }
    }

    /// The size that the window was given by that right, in physical pixels, if it was used.
    pub open spec fn size(self) -> Option<(u32, u32)> {
        match self.sized() {
            Some(sized) => Some(sized.size()),
            None => None,
        }
    }

    /// Returns a handle to the window for Slint and for asking whether it is visible.
    pub fn view(&self) -> (view: WindowView)
        ensures
            view.window() == self.window(),
    {
        let window = match &self.sizing {
            Sizing::Given(sized) => sized.reference(),
            Sizing::Unused(sizer) => sizer.reference(),
        };
        WindowView { window: share_window(window) }
    }
}

/// A handle to a Slint window for Slint itself and for asking whether the window is visible. What
/// is done to the window by other means, once it was handed out, nothing here remembers.
pub struct WindowView {
    window: Rc<MinimalSoftwareWindow>,
}

/// Whether a window, when it was asked, answered that it is visible or not.
pub closed spec fn seen_as(window: Rc<MinimalSoftwareWindow>, visible: bool) -> bool {
    is_visible.ensures((&*window,), visible)
}

/// A window is seen as what it answered: Slint's own answer, and no other, is what a
/// [`WindowView`] and an event loop pass on.
pub(crate) proof fn a_window_is_seen_as_it_answered(
    window: Rc<MinimalSoftwareWindow>,
    visible: bool,
)
    ensures
        seen_as(window, visible) <==> is_visible.ensures((&*window,), visible),
{
}

impl WindowView {
    /// The window.
    pub closed spec fn window(self) -> Rc<MinimalSoftwareWindow> {
        self.window
    }

    /// Returns the window itself, for Slint.
    pub fn handle(&self) -> (window: Rc<MinimalSoftwareWindow>)
        ensures
            window == self.window(),
    {
        share_window(&self.window)
    }

    /// Returns whether the window is currently visible.
    pub fn is_visible(&self) -> (visible: bool)
        ensures
            seen_as(self.window(), visible),
    {
        is_visible(&self.window)
    }
}

} // verus!
