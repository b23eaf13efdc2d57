//! Verified core of the Sigma instrument cluster: the Connectivity window's
//! focus model and view, display and theme configuration, readout
//! formatting, window navigation and the demo ride's phases.

pub mod connectivity;
pub mod dashboard;
pub mod display;
pub mod nav;
pub mod sim;
pub mod telemetry;
pub mod text;
pub mod theme;
pub mod updates;

pub use connectivity::{
    apply, apply_idle, build_items, Action, BackResult, ConnItem, ConnView, Controller, DeviceRow,
    Menu, NetworkRow, Screen, Snapshot,
};
pub use dashboard::{blink_tick, set_speed_readout, speed_digits, SpeedReadout};
pub use display::{configure_window, fullscreen_requested, DisplayConfig, WindowAction};
pub use sim::DemoPhase;
pub use telemetry::gear_label;
pub use theme::{parse_mode_from_env, DisplayMode};
pub use updates::{ChannelRelease, UpdatesConfig};
