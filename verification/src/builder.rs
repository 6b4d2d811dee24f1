//! Construction: from a configured display, a touch input and a runtime to a running platform.

use core::time::Duration;
use std::rc::Rc;

use i_slint_renderer_software::MinimalSoftwareWindow;
use mipidsi::InitError;
use slint::platform::{PlatformError, SetPlatformError};
use vstd::prelude::*;

use crate::error::AdapterError;
use crate::event_loop::McuEventLoop;
use crate::platform::{PlatformCall, RepaintBuffer, SettledWindow};
use crate::render::DisplayState;
use crate::time::{duration_nanos, shows, McuClock, McuRuntime};
use crate::touch::{NoTouch, TouchState, TouchTracker};
use crate::window::{SlintWindow, WindowSizer};

verus! {

/// A display that was initialized, and its size.
pub struct InitializedDisplay<PANEL> {
    /// The display.
    pub display: PANEL,
    /// Its width in pixels.
    pub width: u32,
    /// Its height in pixels.
    pub height: u32,
}

/// Everything that the installed platform works with.
pub struct McuBackend<PANEL, TOUCH, RUNTIME> {
    /// The event loop with its window and its touch input.
    pub event_loop: McuEventLoop<TOUCH>,
    /// The display with its line buffer.
    pub display: DisplayState<PANEL>,
    /// The runtime and the time at which the platform was started.
    pub clock: McuClock<RUNTIME>,
}

/// What a construction ends with.
pub struct BuiltApp<App, HANDLE> {
    /// The generated component.
    pub app: App,
    /// The handle that the installation of the platform gave.
    pub handle: HANDLE,
    /// The component's window, with its size.
    pub window: SettledWindow,
}

/// What a construction that failed leaves behind.
#[verifier::reject_recursive_types(DE)]
#[verifier::reject_recursive_types(RE)]
pub struct NotBuilt<DE, RE> {
    /// What went wrong.
    pub error: AdapterError<DE, RE>,
    /// The window, if it was opened already.
    pub window: Option<SettledWindow>,
}

/// The component of a construction, or its error.
pub open spec fn app_of<App, HANDLE, DE, RE>(
    built: Result<BuiltApp<App, HANDLE>, NotBuilt<DE, RE>>,
) -> Result<App, AdapterError<DE, RE>> {
    match built {
        Ok(built) => Ok(built.app),
        Err(failed) => Err(failed.error),
    }
}

/// Whether a construction left that window behind with the right to size it unused.
pub open spec fn left_alone(left: Option<SettledWindow>, window: Rc<
    MinimalSoftwareWindow,
>) -> bool {
    left matches Some(settled) && settled.window() == window && settled.size() is None
}

/// Builds and installs the Slint MCU platform.
///
/// The builder owns an uninitialized but fully configured display, a touch implementation, and
/// the MCU runtime.
pub struct AdapterBuilder<DISPLAY, TOUCH, RUNTIME> {
    display: DISPLAY,
    touch: TOUCH,
    runtime: RUNTIME,
    poll_interval: Duration,
}

impl<DISPLAY, TOUCH, RUNTIME> AdapterBuilder<DISPLAY, TOUCH, RUNTIME> {
    /// The configured display.
    pub closed spec fn display(self) -> DISPLAY {
        self.display
    }

    /// The touch input.
    pub closed spec fn touch(self) -> TOUCH {
        self.touch
    }

    /// The runtime.
    pub closed spec fn runtime(self) -> RUNTIME {
        self.runtime
    }

    /// The longest time between two steps of the event loop.
    pub closed spec fn interval(self) -> Duration {
        self.poll_interval
    }

    /// Creates an adapter from a configured display, touch input, and runtime.
    ///
    /// The default event-loop polling interval is approximately one 60 Hz frame (`16_667`
    /// microseconds).
    #[must_use]
    pub fn new(display: DISPLAY, touch: TOUCH, runtime: RUNTIME) -> (builder: Self)
        ensures
            builder.display() == display,
            builder.touch() == touch,
            builder.runtime() == runtime,
            duration_nanos(builder.interval()) == 16_667_000,
    {
        AdapterBuilder { display, touch, runtime, poll_interval: Duration::from_micros(16_667) }
    }

    /// Sets the maximum interval between touch polls and animation frames.
    ///
    /// Slint timer deadlines can shorten this interval. A zero duration creates a busy event
    /// loop.
    #[must_use]
    pub fn poll_interval(self, interval: Duration) -> (builder: Self)
        ensures
            builder.display() == self.display(),
            builder.touch() == self.touch(),
            builder.runtime() == self.runtime(),
            builder.interval() == interval,
    {
        AdapterBuilder {
            display: self.display,
            touch: self.touch,
            runtime: self.runtime,
            poll_interval: interval,
        }
    }
}

impl<DISPLAY, TOUCH, RUNTIME: McuRuntime> AdapterBuilder<DISPLAY, TOUCH, RUNTIME> {
    /// Whether `backend` is what this builder makes of its display once that is initialized.
    pub open spec fn assembles<PANEL>(
        self,
        panel: InitializedDisplay<PANEL>,
        backend: McuBackend<PANEL, TOUCH, RUNTIME>,
    ) -> bool {
        &&& backend.display.display == panel.display
        &&& backend.display.is_blank(panel.width)
        &&& backend.event_loop.input() == self.touch()
        &&& backend.event_loop.touch() == TouchState::initial(panel.width, panel.height)
        &&& backend.event_loop.poll_interval() == self.interval()
        &&& backend.event_loop.calls() == seq![PlatformCall::Open(RepaintBuffer::Reused)]
        &&& backend.clock.runtime() == self.runtime()
        &&& shows(self.runtime(), backend.clock.started_at())
    }

    /// Whether the parts of a construction can be called: `init` with the configured display,
    /// `install` with what was assembled from it, and `app_factory` once that was installed.
    pub open spec fn can_build<App, PANEL, HANDLE, DE, RE, I, S, A>(
        self,
        init: I,
        install: S,
        app_factory: A,
    ) -> bool where
        I: FnOnce(DISPLAY) -> Result<InitializedDisplay<PANEL>, InitError<DE, RE>>,
        S: FnOnce(McuBackend<PANEL, TOUCH, RUNTIME>) -> Result<HANDLE, SetPlatformError>,
        A: FnOnce() -> Result<App, PlatformError>,
    {
        &&& init.requires((self.display(),))
        &&& forall|
            panel: InitializedDisplay<PANEL>,
            backend: McuBackend<PANEL, TOUCH, RUNTIME>,
        |
            init.ensures((self.display(),), Ok(panel)) && #[trigger] self.assembles(panel, backend)
                ==> install.requires((backend,))
        &&& forall|backend: McuBackend<PANEL, TOUCH, RUNTIME>, handle: HANDLE| #[trigger]
            install.ensures((backend,), Ok(handle)) ==> app_factory.requires(())
    }

    /// How a construction may end: with the error of the first part that failed and a window
    /// whose right to be sized is unused, or with the component, the handle and the window, which was given the
    /// size of the display.
    pub open spec fn builds<App, PANEL, HANDLE, DE, RE, I, S, A>(
        self,
        init: I,
        install: S,
        app_factory: A,
        result: Result<BuiltApp<App, HANDLE>, NotBuilt<DE, RE>>,
    ) -> bool where
        I: FnOnce(DISPLAY) -> Result<InitializedDisplay<PANEL>, InitError<DE, RE>>,
        S: FnOnce(McuBackend<PANEL, TOUCH, RUNTIME>) -> Result<HANDLE, SetPlatformError>,
        A: FnOnce() -> Result<App, PlatformError>,
    {
        match result {
            Ok(built) => app_factory.ensures((), Ok(built.app)) && exists|
                panel: InitializedDisplay<PANEL>,
                backend: McuBackend<PANEL, TOUCH, RUNTIME>,
            |
                init.ensures((self.display(),), Ok(panel)) && #[trigger] self.assembles(
                    panel,
                    backend,
                ) && install.ensures((backend,), Ok(built.handle)) && built.window.window()
                    == backend.event_loop.window() && built.window.size() == Some(
                    (panel.width, panel.height),
                ),
            Err(failed) => match failed.error {
                AdapterError::Display(error) => init.ensures((self.display(),), Err(error))
                    && failed.window is None,
                AdapterError::Platform(error) => exists|
                    panel: InitializedDisplay<PANEL>,
                    backend: McuBackend<PANEL, TOUCH, RUNTIME>,
                |
                    init.ensures((self.display(),), Ok(panel)) && #[trigger] self.assembles(
                        panel,
                        backend,
                    ) && install.ensures((backend,), Err(error)) && left_alone(
                        failed.window,
                        backend.event_loop.window(),
                    ),
                AdapterError::App(error) => app_factory.ensures((), Err(error)) && exists|
                    panel: InitializedDisplay<PANEL>,
                    backend: McuBackend<PANEL, TOUCH, RUNTIME>,
                    handle: HANDLE,
                |
                    init.ensures((self.display(),), Ok(panel)) && #[trigger] self.assembles(
                        panel,
                        backend,
                    ) && #[trigger] install.ensures((backend,), Ok(handle)) && left_alone(
                        failed.window,
                        backend.event_loop.window(),
                    ),
            },
        }
    }

    /// Initializes the hardware, installs the platform, and returns the Slint app together with
    /// the handle that the installation gave.
    ///
    /// `init` initializes the display. `install` installs the platform and returns a handle to
    /// its event loop. `app_factory` constructs the component. The first failure ends the
    /// construction. Once the component exists, its window gets the size of the display.
    pub fn build_with_event_loop<App, PANEL, HANDLE, DE, RE, I, S, A>(
        self,
        init: I,
        install: S,
        app_factory: A,
    ) -> (result: Result<BuiltApp<App, HANDLE>, NotBuilt<DE, RE>>) where
        I: FnOnce(DISPLAY) -> Result<InitializedDisplay<PANEL>, InitError<DE, RE>>,
        S: FnOnce(McuBackend<PANEL, TOUCH, RUNTIME>) -> Result<HANDLE, SetPlatformError>,
        A: FnOnce() -> Result<App, PlatformError>,

        requires
            self.can_build(init, install, app_factory),
        ensures
            self.builds(init, install, app_factory, result),
    {
        let ghost builder = self;
        let panel = match init(self.display) {
            Ok(panel) => panel,
            Err(error) => {
                return Err(NotBuilt { error: AdapterError::Display(error), window: None });
            },
        };
        let ghost initialized = panel;
        let width: u32 = panel.width;
        let height: u32 = panel.height;
        let opened = SlintWindow::open();
        let display = DisplayState::new(panel.display, width);
        let clock = McuClock::start(self.runtime);
        let touch = TouchTracker::new(self.touch, width, height);
        let event_loop = McuEventLoop::new(opened.window, touch, self.poll_interval);
        let backend = McuBackend { event_loop, display, clock };
        assert(builder.assembles(initialized, backend));
        let handle = match install(backend) {
            Ok(handle) => handle,
            Err(error) => {
                return Err(
                    NotBuilt {
                        error: AdapterError::Platform(error),
                        window: Some(opened.sizer.give_up()),
                    },
                );
            },
        };
        match finish_build(opened.sizer, width, height, app_factory()) {
            Ok((app, window)) => Ok(BuiltApp { app, handle, window }),
            Err(failed) => Err(failed),
        }
    }

    /// Initializes the hardware, installs the platform, and returns a normal Slint app.
    pub fn build<App, PANEL, HANDLE, DE, RE, I, S, A>(
        self,
        init: I,
        install: S,
        app_factory: A,
    ) -> (result: Result<App, AdapterError<DE, RE>>) where
        I: FnOnce(DISPLAY) -> Result<InitializedDisplay<PANEL>, InitError<DE, RE>>,
        S: FnOnce(McuBackend<PANEL, TOUCH, RUNTIME>) -> Result<HANDLE, SetPlatformError>,
        A: FnOnce() -> Result<App, PlatformError>,

        requires
            self.can_build(init, install, app_factory),
        ensures
            exists|built: Result<BuiltApp<App, HANDLE>, NotBuilt<DE, RE>>| #[trigger]
                self.builds(init, install, app_factory, built) && result == app_of(built),
    {
        let built = self.build_with_event_loop(init, install, app_factory);
        assert(self.builds(init, install, app_factory, built));
        match built {
            Ok(built) => Ok(built.app),
            Err(failed) => Err(failed.error),
        }
    }
}

/// Gives the window the size of the display once the component was constructed, and leaves it alone
/// where that failed.
pub fn finish_build<App, DE, RE>(
    sizer: WindowSizer,
    width: u32,
    height: u32,
    app: Result<App, PlatformError>,
) -> (result: Result<(App, SettledWindow), NotBuilt<DE, RE>>)
    ensures
        match app {
            Ok(component) => {
                &&& result matches Ok((finished, window))
                &&& finished == component
                &&& window.window() == sizer.window()
                &&& window.size() == Some((width, height))
                &&& window.sized() matches Some(sized)
                &&& sized.size() == (width, height)
            },
            Err(error) => {
                &&& result matches Err(failed)
                &&& failed.error == AdapterError::<DE, RE>::App(error)
                &&& failed.window matches Some(window)
                &&& window.window() == sizer.window()
                &&& window.size() is None
                &&& window.sized() is None
            },
        },
{
    match app {
        Ok(component) => Ok((component, sizer.resize(width, height))),
        Err(error) => Err(
            NotBuilt { error: AdapterError::App(error), window: Some(sizer.give_up()) },
        ),
    }
}

/// Builds a Slint MCU platform for a display without touch input.
///
/// This is the display-only counterpart of [`AdapterBuilder`]. It installs [`NoTouch`], so that
/// callers only provide a configured display and an [`McuRuntime`].
pub struct AdapterBuilderWithoutTouch<DISPLAY, RUNTIME> {
    inner: AdapterBuilder<DISPLAY, NoTouch, RUNTIME>,
}

impl<DISPLAY, RUNTIME> AdapterBuilderWithoutTouch<DISPLAY, RUNTIME> {
    /// The builder with [`NoTouch`] as its touch input.
    pub closed spec fn inner(self) -> AdapterBuilder<DISPLAY, NoTouch, RUNTIME> {
        self.inner
    }

    /// Creates a display-only adapter from a configured display and runtime.
    ///
    /// The default event-loop polling interval is approximately one 60 Hz frame (`16_667`
    /// microseconds).
    #[must_use]
    pub fn new(display: DISPLAY, runtime: RUNTIME) -> (builder: Self)
        ensures
            builder.inner().display() == display,
            builder.inner().touch() == NoTouch,
            builder.inner().runtime() == runtime,
            duration_nanos(builder.inner().interval()) == 16_667_000,
    {
        AdapterBuilderWithoutTouch { inner: AdapterBuilder::new(display, NoTouch, runtime) }
    }

    /// Sets the maximum interval between event-loop iterations.
    ///
    /// Slint timer deadlines can shorten this interval. A zero duration creates a busy event
    /// loop.
    #[must_use]
    pub fn poll_interval(self, interval: Duration) -> (builder: Self)
        ensures
            builder.inner().display() == self.inner().display(),
            builder.inner().touch() == self.inner().touch(),
            builder.inner().runtime() == self.inner().runtime(),
            builder.inner().interval() == interval,
    {
        AdapterBuilderWithoutTouch { inner: self.inner.poll_interval(interval) }
    }
}

impl<DISPLAY, RUNTIME: McuRuntime> AdapterBuilderWithoutTouch<DISPLAY, RUNTIME> {
    /// Initializes the hardware and returns the Slint app with the handle that the installation
    /// gave, as [`AdapterBuilder::build_with_event_loop`] does.
    pub fn build_with_event_loop<App, PANEL, HANDLE, DE, RE, I, S, A>(
        self,
        init: I,
        install: S,
        app_factory: A,
    ) -> (result: Result<BuiltApp<App, HANDLE>, NotBuilt<DE, RE>>) where
        I: FnOnce(DISPLAY) -> Result<InitializedDisplay<PANEL>, InitError<DE, RE>>,
        S: FnOnce(McuBackend<PANEL, NoTouch, RUNTIME>) -> Result<HANDLE, SetPlatformError>,
        A: FnOnce() -> Result<App, PlatformError>,

        requires
            self.inner().can_build(init, install, app_factory),
        ensures
            self.inner().builds(init, install, app_factory, result),
    {
        self.inner.build_with_event_loop(init, install, app_factory)
    }

    /// Initializes the hardware, installs the platform, and returns a normal Slint app.
    pub fn build<App, PANEL, HANDLE, DE, RE, I, S, A>(
        self,
        init: I,
        install: S,
        app_factory: A,
    ) -> (result: Result<App, AdapterError<DE, RE>>) where
        I: FnOnce(DISPLAY) -> Result<InitializedDisplay<PANEL>, InitError<DE, RE>>,
        S: FnOnce(McuBackend<PANEL, NoTouch, RUNTIME>) -> Result<HANDLE, SetPlatformError>,
        A: FnOnce() -> Result<App, PlatformError>,

        requires
            self.inner().can_build(init, install, app_factory),
        ensures
            exists|built: Result<BuiltApp<App, HANDLE>, NotBuilt<DE, RE>>| #[trigger]
                self.inner().builds(init, install, app_factory, built) && result == app_of(built),
    {
        self.inner.build(init, install, app_factory)
    }
}

} // verus!
