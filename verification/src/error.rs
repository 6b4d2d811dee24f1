//! Errors: why an event-loop step or the construction of the adapter failed.

use core::fmt::Debug;

use mipidsi::InitError;
use slint::platform::{PlatformError, SetPlatformError};
use vstd::prelude::*;
use vstd::string::StringExecFns;

verus! {

/// mipidsi's display initialization error.
#[verifier::external_type_specification]
#[verifier::external_body]
#[verifier::reject_recursive_types(DI)]
#[verifier::reject_recursive_types(P)]
pub struct ExInitError<DI, P>(InitError<DI, P>);

/// The error of a result, if it is one.
pub open spec fn error_of<E>(result: Result<(), E>) -> Option<E> {
    match result {
        Ok(_) => None,
        Err(error) => Some(error),
    }
}

/// The platform error that `PlatformError::from` makes of a message.
pub uninterp spec fn platform_error_from(message: Seq<char>) -> PlatformError;

/// `<PlatformError as From<String>>::from`: an error that carries the message.
#[verifier::external_body]
fn platform_error(message: String) -> (error: PlatformError)
    ensures
        error == platform_error_from(message@),
{
    PlatformError::from(message)
}

/// `format!` with the `Debug` implementation of a value. The text is that implementation's own;
/// nothing is claimed of it.
#[verifier::external_body]
fn debug_text<T: Debug>(value: &T) -> (text: String) {
    format!("{value:?}")
}

/// Whether the `Debug` implementation of a value may write `text`.
pub closed spec fn debugs_as<T: Debug>(value: T, text: String) -> bool {
    debug_text::<T>.ensures((&value,), text)
}

/// The text of a cause is what the `Debug` implementation of that very cause wrote.
proof fn a_cause_is_written_as_it_debugs<T: Debug>(value: T, text: String)
    ensures
        debugs_as(value, text) <==> debug_text::<T>.ensures((&value,), text),
{
}

/// Why a step of the event loop failed.
#[derive(Debug)]
pub enum StepError<TouchError, DisplayError> {
    /// The touch input could not be read.
    Touch(TouchError),
    /// Slint refused a pointer event.
    Platform(PlatformError),
    /// The display could not be written.
    Display(DisplayError),
}

fn join(prefix: &str, cause: &str) -> (message: String)
    ensures
        message@ == prefix@ + cause@,
{
    String::from_str(prefix).concat(cause)
}

/// Returns the message for a touch input that could not be read.
pub fn touch_failure(cause: &str) -> (message: String)
    ensures
        message@ == "touch input failed: "@ + cause@,
{
    join("touch input failed: ", cause)
}

/// Returns the message for a display that could not be written.
pub fn display_failure(cause: &str) -> (message: String)
    ensures
        message@ == "display rendering failed: "@ + cause@,
{
    join("display rendering failed: ", cause)
}

impl<TouchError: Debug, DisplayError: Debug> StepError<TouchError, DisplayError> {
    /// Returns the error as Slint's own: a refused event as Slint gave it, any other failure as
    /// a message that ends in the cause.
    pub fn into_platform_error(self) -> (error: PlatformError)
        ensures
            match self {
                StepError::Platform(cause) => error == cause,
                StepError::Touch(cause) => exists|text: String| #[trigger]
                    debugs_as(cause, text) && error == platform_error_from(
                        "touch input failed: "@ + text@,
                    ),
                StepError::Display(cause) => exists|text: String| #[trigger]
                    debugs_as(cause, text) && error == platform_error_from(
                        "display rendering failed: "@ + text@,
                    ),
            },
    {
        match self {
            StepError::Platform(cause) => cause,
            StepError::Touch(cause) => {
                let text = debug_text(&cause);
                assert(debugs_as(cause, text));
                platform_error(touch_failure(&text))
            },
            StepError::Display(cause) => {
                let text = debug_text(&cause);
                assert(debugs_as(cause, text));
                platform_error(display_failure(&text))
            },
        }
    }
}

/// An error produced while initializing the adapter and constructing the Slint component.
#[derive(Debug)]
#[verifier::reject_recursive_types(DisplayError)]
#[verifier::reject_recursive_types(ResetError)]
pub enum AdapterError<DisplayError, ResetError> {
    /// mipidsi failed to initialize the display.
    Display(InitError<DisplayError, ResetError>),
    /// A Slint platform has already been installed.
    Platform(SetPlatformError),
    /// Construction of the generated Slint component failed.
    App(PlatformError),
}

/// Returns the message for a display that could not be initialized.
pub fn init_failure<DisplayError: Debug, ResetError: Debug>(
    error: &InitError<DisplayError, ResetError>,
) -> (message: String)
    ensures
        exists|cause: String| #[trigger]
            debugs_as(*error, cause) && message@ == "display initialization failed: "@ + cause@,
{
    let cause = debug_text(error);
    assert(debugs_as(*error, cause));
    join("display initialization failed: ", &cause)
}

/// Returns the message for a platform that could not be installed.
pub fn install_failure(error: &SetPlatformError) -> (message: String)
    ensures
        exists|cause: String| #[trigger]
            vstd::string::to_string_from_display_ensures(error, cause) && message@
                == "could not install Slint platform: "@ + cause@,
{
    join("could not install Slint platform: ", &error.to_string())
}

/// Returns the message for a component that could not be constructed.
pub fn app_failure(error: &PlatformError) -> (message: String)
    ensures
        exists|cause: String| #[trigger]
            vstd::string::to_string_from_display_ensures(error, cause) && message@
                == "could not create Slint app: "@ + cause@,
{
    join("could not create Slint app: ", &error.to_string())
}

impl<DisplayError: Debug, ResetError: Debug> AdapterError<DisplayError, ResetError> {
    /// Returns the error as a sentence that ends in its cause.
    pub fn message(&self) -> (message: String)
        ensures
            match *self {
                AdapterError::Display(error) => exists|cause: String| #[trigger]
                    debugs_as(error, cause) && message@ == "display initialization failed: "@
                        + cause@,
                AdapterError::Platform(error) => exists|cause: String|
                    #[trigger] vstd::string::to_string_from_display_ensures(&error, cause) && message@
                        == "could not install Slint platform: "@ + cause@,
                AdapterError::App(error) => exists|cause: String|
                    #[trigger] vstd::string::to_string_from_display_ensures(&error, cause) && message@
                        == "could not create Slint app: "@ + cause@,
            },
    {
        match self {
            AdapterError::Display(error) => init_failure(error),
            AdapterError::Platform(error) => install_failure(error),
            AdapterError::App(error) => app_failure(error),
        }
    }
}

} // verus!
