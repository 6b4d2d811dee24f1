//! Verified core of a Slint platform adapter for microcontroller displays.
//!
//! The adapter connects a display, a polled touch input and a monotonic clock to Slint's software
//! renderer. This crate decides what is dispatched, drawn, waited for and reported; every function
//! states what it does and is proved to do so. What only hardware can do is handed in by the caller.
//!
//! - [`touch`]: samples become pointer transitions;
//! - [`pointer`]: transitions become window events;
//! - [`platform`] and [`window`]: the calls into Slint;
//! - [`render`]: line-by-line rendering;
//! - [`time`]: the clock and the time to wait;
//! - [`event_loop`]: one step, and the blocking loop;
//! - [`builder`]: construction and installation;
//! - [`error`]: what can go wrong;
//! - [`operations`]: what each operation makes of what it is given;
//! - [`laws`]: what holds over many samples and steps.

pub mod builder;
pub mod error;
pub mod event_loop;
pub mod laws;
pub mod operations;
pub mod platform;
pub mod pointer;
pub mod render;
pub mod time;
pub mod touch;
pub mod window;

pub use builder::{
    AdapterBuilder, AdapterBuilderWithoutTouch, BuiltApp, InitializedDisplay, McuBackend, NotBuilt,
};
pub use error::{AdapterError, StepError};
pub use event_loop::{LoopAction, LoopEvent, McuEventLoop};
pub use platform::{SettledWindow, WindowView};
pub use pointer::{PointerButton, PointerEvent};
pub use render::{DisplayState, LineArea, LineColors, Rgb565Channels};
pub use time::{McuClock, McuRuntime};
pub use touch::{NoTouch, PointerPosition, TouchInput, TouchPoint, TouchTracker, TouchUpdate};
pub use window::{OpenedWindow, SlintWindow, WindowSizer};
