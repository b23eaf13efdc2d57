//! Display sizing presets.
use vstd::prelude::*;

verus! {

/// Width of the cluster panel in logical pixels.
pub const PANEL_WIDTH: u32 = 800;
/// Height of the cluster panel in logical pixels.
pub const PANEL_HEIGHT: u32 = 480;

/// How the dashboard window should be presented on startup.
#[derive(Clone, Copy, Debug)]
pub struct DisplayConfig {
    /// Fixed window size (e.g. 800×480 virt panel). When set, fullscreen is skipped.
    pub fixed_size: Option<(u32, u32)>,
    /// Default kiosk/fullscreen when `SLINT_FULLSCREEN` is unset.
    pub default_kiosk: bool,
}

impl DisplayConfig {
    /// The 800×480 virtual panel, windowed.
    pub fn virt_panel() -> (c: DisplayConfig)
        ensures
            c.fixed_size == Some((PANEL_WIDTH, PANEL_HEIGHT)),
            !c.default_kiosk,
    {
        DisplayConfig { fixed_size: Some((PANEL_WIDTH, PANEL_HEIGHT)), default_kiosk: false }
    }

    /// Desktop window at its preferred size, windowed by default.
    pub fn desktop() -> (c: DisplayConfig)
        ensures
            c.fixed_size is None,
            !c.default_kiosk,
    {
        DisplayConfig { fixed_size: None, default_kiosk: false }
    }

    /// Embedded target: no fixed size, kiosk as given.
    pub fn embedded(default_kiosk: bool) -> (c: DisplayConfig)
        ensures
            c.fixed_size is None,
            c.default_kiosk == default_kiosk,
    {
        DisplayConfig { fixed_size: None, default_kiosk }
    }
}

} // verus!
