//! Display sizing presets and the window size / fullscreen policy.

pub mod config;
pub mod window;

pub use config::{DisplayConfig, PANEL_HEIGHT, PANEL_WIDTH};
pub use window::{configure_window, fullscreen_requested, panel_size_from_env, WindowAction};
