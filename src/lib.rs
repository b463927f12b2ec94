//! Control core of an addressable-LED night light: color stepping, a
//! millisecond clock and the on/off/fade state machine driven by remote
//! commands, an auto-on trigger and periodic ticks.

pub mod controller;
pub mod ir;
pub mod led;
pub mod led_control;
pub mod system_clock;

pub use controller::{Context, Controller, Event, FadeToState, Mode, OnStateData, State};
pub use ir::{Button, IrCommand, IrCommandQueue};
pub use led::{
    BasicColor, FadeOffRgbw, FadeToRgbw, InfallibleLedDriver, LedOutput, RandomColorGen, RGBW8,
};
pub use led_control::{Error, LedController};
pub use system_clock::{Duration, Instant, SystemClock};
