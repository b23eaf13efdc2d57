//! Display modes — day / dusk / night palettes.
//!
//! Selected via `SIGMA_DISPLAY_MODE` (preferred) or `SIGMA_UI_TONE` (alias).

pub mod mode;

pub use mode::{parse_mode_from_env, parse_tone, DisplayMode};
