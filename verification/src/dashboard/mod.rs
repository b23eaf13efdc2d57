//! Readout helpers for the dashboard.

pub mod signal_blink;
pub mod speed;

pub use signal_blink::{blink_tick, BLINK_MS};
pub use speed::{set_speed_readout, speed_digits, SpeedReadout};
