//! Connectivity window focus model and the values it renders.
//!
//! Face buttons on the Connectivity window:
//! - Previous / Next move the focus highlight (edge Prev/Next leave the window)
//! - Select activates the focused row
//! - Back leaves a list to the main menu, or returns home from the main menu
use vstd::prelude::*;

pub mod action;
pub mod back_result;
pub mod controller;
pub mod device_row;
pub mod menu;
pub mod network_row;
pub mod screen;
pub mod snapshot;
pub mod view;

pub use action::Action;
pub use back_result::BackResult;
pub use controller::Controller;
pub use device_row::DeviceRow;
pub use menu::{Menu, MAIN_BT_DEVICES, MAIN_BT_POWER, MAIN_COUNT, MAIN_WIFI_NETWORKS, MAIN_WIFI_POWER};
pub use network_row::NetworkRow;
pub use screen::Screen;
pub use snapshot::Snapshot;
pub use view::{apply, apply_idle, build_items, ConnItem, ConnView};

verus! {

/// Window index of the Connectivity window.
pub const WINDOW: i32 = 5;

} // verus!
