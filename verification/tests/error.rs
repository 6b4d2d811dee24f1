use mipidsi::{ConfigurationError, InitError};
use slint::platform::{PlatformError, SetPlatformError};
use slint_mipidsi_adapter::error::{display_failure, touch_failure};
use slint_mipidsi_adapter::{AdapterError, StepError};

#[derive(Debug)]
struct Bus(u8);

#[test]
fn a_touch_error_becomes_a_platform_error() {
    let error: StepError<Bus, Bus> = StepError::Touch(Bus(7));

    assert_eq!(
        error.into_platform_error().to_string(),
        "touch input failed: Bus(7)"
    );
}

#[test]
fn a_display_error_becomes_a_platform_error() {
    let error: StepError<Bus, Bus> = StepError::Display(Bus(9));

    assert_eq!(
        error.into_platform_error().to_string(),
        "display rendering failed: Bus(9)"
    );
}

#[test]
fn a_platform_error_is_kept() {
    let error: StepError<Bus, Bus> = StepError::Platform(PlatformError::Unsupported);

    assert!(matches!(
        error.into_platform_error(),
        PlatformError::Unsupported
    ));
}

#[test]
fn failure_messages_end_in_their_cause() {
    assert_eq!(touch_failure("Nack"), "touch input failed: Nack");
    assert_eq!(display_failure(""), "display rendering failed: ");
}

#[test]
fn construction_errors_are_sentences() {
    let error: AdapterError<Bus, Bus> = AdapterError::Display(InitError::InvalidConfiguration(
        ConfigurationError::InvalidDisplaySize,
    ));
    assert_eq!(
        error.message(),
        "display initialization failed: InvalidConfiguration(InvalidDisplaySize)"
    );

    let error: AdapterError<Bus, Bus> = AdapterError::Platform(SetPlatformError::AlreadySet);
    assert_eq!(
        error.message(),
        "could not install Slint platform: The platform has already been initialized."
    );

    let error: AdapterError<Bus, Bus> = AdapterError::App(PlatformError::from("no memory"));
    assert_eq!(error.message(), "could not create Slint app: no memory");
}
