//! Shared menu + snapshot handle.
use vstd::prelude::*;

use super::menu::{spec_home, Menu};
use super::snapshot::{Snapshot, SnapshotView};
use super::view::{apply, spec_apply, ConnView};

verus! {

/// Menu and latest snapshot, shared by the navigation and poll timers.
#[derive(Debug, Clone)]
pub struct Controller {
    /// Focus model.
    pub menu: Menu,
    /// Latest backend snapshot.
    pub snap: Snapshot,
}

/// The snapshot a fresh controller starts from: empty, battery unknown.
pub open spec fn spec_fresh_snapshot() -> SnapshotView {
    SnapshotView {
        bt_powered: false,
        bt_connected: false,
        bt_device: Seq::empty(),
        bt_battery: -1i32,
        wifi_powered: false,
        wifi_connected: false,
        wifi_ssid: Seq::empty(),
        devices: Seq::empty(),
        networks: Seq::empty(),
        status: Seq::empty(),
        busy: false,
        available: false,
    }
}

impl Controller {
    /// Fresh controller with an unknown-battery snapshot.
    pub fn new() -> (c: Controller)
        ensures
            c.menu == spec_home(),
            c.snap@ == spec_fresh_snapshot(),
    {
        let mut snap = Snapshot::default();
        snap.bt_battery = -1;
        snap.status = String::new();
        Controller { menu: Menu::default(), snap }
    }

    /// What the dashboard shows for the current menu and snapshot.
    pub fn paint(&self) -> (v: ConnView)
        ensures
            v@ == spec_apply(self.menu, self.snap@),
    {
        apply(&self.menu, &self.snap)
    }
}

impl Default for Controller {
    fn default() -> (c: Controller)
        ensures
            c.menu == spec_home(),
            c.snap@ == spec_fresh_snapshot(),
    {
        Controller::new()
    }
}

} // verus!
