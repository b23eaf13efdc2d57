//! Point-in-time view of both radios.
use vstd::prelude::*;

use super::device_row::{DeviceRow, DeviceRowView};
use super::network_row::{NetworkRow, NetworkRowView};

verus! {

/// Everything the Connectivity window renders, refreshed by the poll timer.
#[derive(Debug, Clone)]
pub struct Snapshot {
    /// Bluetooth adapter powered.
    pub bt_powered: bool,
    /// A headset is connected.
    pub bt_connected: bool,
    /// Connected headset name.
    pub bt_device: String,
    /// Headset battery percent, `-1` when unknown.
    pub bt_battery: i32,
    /// Wi-Fi radio powered.
    pub wifi_powered: bool,
    /// Associated with a network.
    pub wifi_connected: bool,
    /// Associated SSID.
    pub wifi_ssid: String,
    /// Bluetooth device list.
    pub devices: Vec<DeviceRow>,
    /// Wi-Fi network list.
    pub networks: Vec<NetworkRow>,
    /// Status line (action results, backend errors).
    pub status: String,
    /// An action is in flight.
    pub busy: bool,
    /// At least one backend is reachable.
    pub available: bool,
}

/// Abstract value of a [`Snapshot`].
pub struct SnapshotView {
    pub bt_powered: bool,
    pub bt_connected: bool,
    pub bt_device: Seq<char>,
    pub bt_battery: i32,
    pub wifi_powered: bool,
    pub wifi_connected: bool,
    pub wifi_ssid: Seq<char>,
    pub devices: Seq<DeviceRowView>,
    pub networks: Seq<NetworkRowView>,
    pub status: Seq<char>,
    pub busy: bool,
    pub available: bool,
}

impl View for Snapshot {
    type V = SnapshotView;

    open spec fn view(&self) -> SnapshotView {
        SnapshotView {
            bt_powered: self.bt_powered,
            bt_connected: self.bt_connected,
            bt_device: self.bt_device@,
            bt_battery: self.bt_battery,
            wifi_powered: self.wifi_powered,
            wifi_connected: self.wifi_connected,
            wifi_ssid: self.wifi_ssid@,
            devices: self.devices@.map_values(|d: DeviceRow| d@),
            networks: self.networks@.map_values(|n: NetworkRow| n@),
            status: self.status@,
            busy: self.busy,
            available: self.available,
        }
    }
}

/// The empty snapshot: radios off, no lists, empty strings, battery 0.
pub open spec fn spec_empty_snapshot() -> SnapshotView {
    SnapshotView {
        bt_powered: false,
        bt_connected: false,
        bt_device: Seq::empty(),
        bt_battery: 0,
        wifi_powered: false,
        wifi_connected: false,
        wifi_ssid: Seq::empty(),
        devices: Seq::empty(),
        networks: Seq::empty(),
        status: Seq::empty(),
        busy: false,
        available: false,
    }
}

impl Default for Snapshot {
    fn default() -> (s: Snapshot)
        ensures
            s@ == spec_empty_snapshot(),
    {
        let s = Snapshot {
            bt_powered: false,
            bt_connected: false,
            bt_device: String::new(),
            bt_battery: 0,
            wifi_powered: false,
            wifi_connected: false,
            wifi_ssid: String::new(),
            devices: Vec::new(),
            networks: Vec::new(),
            status: String::new(),
            busy: false,
            available: false,
        };
        assert(s@.devices =~= Seq::<DeviceRowView>::empty());
        assert(s@.networks =~= Seq::<NetworkRowView>::empty());
        s
    }
}

} // verus!
