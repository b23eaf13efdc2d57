//! Actions the menu can request from the backends.
use vstd::prelude::*;

verus! {

/// A user-selected operation, executed by the platform backends.
#[derive(Debug, Clone, Copy, PartialEq, Eq, Structural)]
pub enum Action {
    /// Toggle Bluetooth power.
    ToggleBt,
    /// Enter the device list.
    OpenBtList,
    /// Toggle Wi-Fi power.
    ToggleWifi,
    /// Enter the network list.
    OpenWifiList,
    /// Discover Bluetooth devices.
    BtScan,
    /// Rescan Wi-Fi networks.
    WifiScan,
    /// Index into the snapshot's device list.
    SelectDevice(usize),
    /// Index into the snapshot's network list.
    SelectNetwork(usize),
}

} // verus!
