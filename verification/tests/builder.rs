use std::convert::Infallible;
use std::rc::Rc;
use std::time::Duration;

use i_slint_renderer_software::{MinimalSoftwareWindow, Rgb565Pixel, SoftwareRenderer};
use mipidsi::{ConfigurationError, InitError};
use slint::platform::{Platform, PlatformError, SetPlatformError, WindowAdapter};
use slint_mipidsi_adapter::builder::finish_build;
use slint_mipidsi_adapter::{
    AdapterBuilder, AdapterBuilderWithoutTouch, AdapterError, InitializedDisplay, McuBackend,
    McuRuntime, NoTouch, NotBuilt, SlintWindow, TouchInput, TouchPoint,
};

struct FixedTouch;

impl TouchInput for FixedTouch {
    type Error = Infallible;

    fn read_touch(&mut self) -> Result<Option<TouchPoint>, Self::Error> {
        Ok(Some(TouchPoint::new(1, 1)))
    }
}

struct FixedRuntime;

impl McuRuntime for FixedRuntime {
    fn now(&self) -> Duration {
        Duration::from_secs(5)
    }

    fn wait(&mut self, _: Duration) {}
}

type Backend<TOUCH> = McuBackend<&'static str, TOUCH, FixedRuntime>;
type InitResult = Result<InitializedDisplay<&'static str>, InitError<u8, u8>>;

fn init(display: &'static str) -> InitResult {
    Ok(InitializedDisplay { display, width: 320, height: 240 })
}

fn keep<TOUCH>(backend: Backend<TOUCH>) -> Result<Backend<TOUCH>, SetPlatformError> {
    Ok(backend)
}

fn app() -> Result<&'static str, PlatformError> {
    Ok("app")
}

fn draw_nothing(_: &SoftwareRenderer) -> Option<&'static str> {
    None
}

#[test]
fn a_construction_assembles_the_backend() {
    let built = AdapterBuilder::new("panel", FixedTouch, FixedRuntime)
        .build_with_event_loop(init, keep, app)
        .ok()
        .unwrap();

    assert_eq!(built.app, "app");
    assert_eq!(built.handle.display.display, "panel");
    assert_eq!(built.handle.display.line_buffer, vec![Rgb565Pixel(0); 320]);
    assert_eq!(built.handle.clock.duration_since_start(), Duration::ZERO);
    assert!(Rc::ptr_eq(
        &built.window.view().handle(),
        &built.handle.event_loop.view().handle()
    ));
    assert_eq!(
        built.window.view().handle().size(),
        slint::PhysicalSize::new(320, 240)
    );
}

#[test]
fn the_default_interval_is_about_one_frame() {
    let mut built = AdapterBuilder::new("panel", FixedTouch, FixedRuntime)
        .build_with_event_loop(init, keep, app)
        .ok()
        .unwrap();

    assert_eq!(
        built.handle.event_loop.step(draw_nothing).unwrap(),
        Duration::from_micros(16_667)
    );
}

#[test]
fn the_interval_can_be_set() {
    let interval = Duration::from_millis(50);
    let mut built = AdapterBuilderWithoutTouch::new("panel", FixedRuntime)
        .poll_interval(Duration::from_millis(1))
        .poll_interval(interval)
        .build_with_event_loop(init, keep, app)
        .ok()
        .unwrap();

    assert_eq!(built.handle.event_loop.step(draw_nothing).unwrap(), interval);
}

#[test]
fn a_display_that_fails_ends_the_construction() {
    let result = AdapterBuilder::new("panel", NoTouch, FixedRuntime).build(
        |_| -> InitResult {
            Err(InitError::InvalidConfiguration(ConfigurationError::InvalidDisplaySize))
        },
        |_: Backend<NoTouch>| -> Result<(), SetPlatformError> { unreachable!() },
        || -> Result<(), PlatformError> { unreachable!() },
    );

    assert!(matches!(
        result,
        Err(AdapterError::Display(InitError::InvalidConfiguration(
            ConfigurationError::InvalidDisplaySize
        )))
    ));
}

#[test]
fn a_platform_that_is_refused_ends_the_construction() {
    let result = AdapterBuilderWithoutTouch::new("panel", FixedRuntime).build(
        init,
        |_: Backend<NoTouch>| -> Result<(), SetPlatformError> { Err(SetPlatformError::AlreadySet) },
        || -> Result<(), PlatformError> { unreachable!() },
    );

    assert!(matches!(
        result,
        Err(AdapterError::Platform(SetPlatformError::AlreadySet))
    ));
}

#[test]
fn a_component_that_fails_ends_the_construction() {
    let mut window = None;
    let result = AdapterBuilder::new("panel", FixedTouch, FixedRuntime).build(
        init,
        |backend: Backend<FixedTouch>| -> Result<(), SetPlatformError> {
            window = Some(backend.event_loop.view().handle());
            Ok(())
        },
        || -> Result<(), PlatformError> { Err(PlatformError::from("no memory")) },
    );

    assert_eq!(
        result.unwrap_err().message(),
        "could not create Slint app: no memory"
    );
    assert_eq!(window.unwrap().size(), slint::PhysicalSize::new(0, 0));
}

#[test]
fn a_finished_construction_resizes_the_window() {
    let failed: Result<((), _), NotBuilt<u8, u8>> =
        finish_build(SlintWindow::open().sizer, 10, 20, Err(PlatformError::Unsupported));
    let failed = failed.err().unwrap();
    assert!(matches!(
        failed.error,
        AdapterError::App(PlatformError::Unsupported)
    ));
    assert_eq!(
        failed.window.unwrap().view().handle().size(),
        slint::PhysicalSize::new(0, 0)
    );

    let finished: Result<(u8, _), NotBuilt<u8, u8>> =
        finish_build(SlintWindow::open().sizer, 10, 20, Ok(3));
    let (app, window) = finished.ok().unwrap();
    assert_eq!(app, 3);
    assert_eq!(
        window.view().handle().size(),
        slint::PhysicalSize::new(10, 20)
    );
}

#[test]
fn a_failed_construction_hands_back_what_it_opened() {
    let refused = AdapterBuilder::new("panel", NoTouch, FixedRuntime)
        .build_with_event_loop(
            init,
            |_: Backend<NoTouch>| -> Result<(), SetPlatformError> {
                Err(SetPlatformError::AlreadySet)
            },
            app,
        )
        .err()
        .unwrap();
    assert!(matches!(refused.error, AdapterError::Platform(_)));
    assert_eq!(
        refused.window.unwrap().view().handle().size(),
        slint::PhysicalSize::new(0, 0)
    );

    let unready = AdapterBuilder::new("panel", NoTouch, FixedRuntime)
        .build_with_event_loop(
            |_| -> InitResult {
                Err(InitError::InvalidConfiguration(ConfigurationError::InvalidDisplaySize))
            },
            keep::<NoTouch>,
            app,
        )
        .err()
        .unwrap();
    assert!(matches!(unready.error, AdapterError::Display(_)));
    assert!(unready.window.is_none());
}

struct OneWindow(Rc<MinimalSoftwareWindow>);

impl Platform for OneWindow {
    fn create_window_adapter(&self) -> Result<Rc<dyn WindowAdapter>, PlatformError> {
        Ok(self.0.clone())
    }

    fn duration_since_start(&self) -> Duration {
        Duration::ZERO
    }
}

fn install<TOUCH>(backend: Backend<TOUCH>) -> Result<(), SetPlatformError> {
    let window = backend.event_loop.view().handle();
    slint::platform::set_platform(Box::new(OneWindow(window)))
}

#[test]
fn a_platform_is_installed_once() {
    let first = AdapterBuilder::new("panel", FixedTouch, FixedRuntime).build(init, install, app);
    assert_eq!(first.unwrap(), "app");

    let second = AdapterBuilderWithoutTouch::new("panel", FixedRuntime).build(init, install, app);
    assert!(matches!(
        second,
        Err(AdapterError::Platform(SetPlatformError::AlreadySet))
    ));
}

#[test]
fn a_platform_stays_installed_when_the_component_fails() {
    let first = AdapterBuilder::new("panel", FixedTouch, FixedRuntime).build(
        init,
        install,
        || -> Result<(), PlatformError> { Err(PlatformError::from("no memory")) },
    );
    assert!(matches!(first, Err(AdapterError::App(_))));

    let second = AdapterBuilder::new("panel", FixedTouch, FixedRuntime).build(init, install, app);
    assert!(matches!(
        second,
        Err(AdapterError::Platform(SetPlatformError::AlreadySet))
    ));
}
