//! One Bluetooth device in the list.
use vstd::prelude::*;

verus! {

/// A known Bluetooth device as shown in the device list.
#[derive(Debug, Clone)]
pub struct DeviceRow {
    /// D-Bus object path (selection target).
    pub path: String,
    /// Display name.
    pub title: String,
    /// Secondary line (state, battery, …).
    pub detail: String,
    /// Short status badge (e.g. `CONNECTED`).
    pub badge: String,
    /// Currently connected.
    pub connected: bool,
    /// Previously paired.
    pub paired: bool,
}

/// Abstract value of a [`DeviceRow`].
pub struct DeviceRowView {
    pub path: Seq<char>,
    pub title: Seq<char>,
    pub detail: Seq<char>,
    pub badge: Seq<char>,
    pub connected: bool,
    pub paired: bool,
}

impl View for DeviceRow {
    type V = DeviceRowView;

    open spec fn view(&self) -> DeviceRowView {
        DeviceRowView {
            path: self.path@,
            title: self.title@,
            detail: self.detail@,
            badge: self.badge@,
            connected: self.connected,
            paired: self.paired,
        }
    }
}

impl Default for DeviceRow {
    fn default() -> (r: DeviceRow)
        ensures
            r@ == (DeviceRowView {
                path: Seq::empty(),
                title: Seq::empty(),
                detail: Seq::empty(),
                badge: Seq::empty(),
                connected: false,
                paired: false,
            }),
    {
        DeviceRow {
            path: String::new(),
            title: String::new(),
            detail: String::new(),
            badge: String::new(),
            connected: false,
            paired: false,
        }
    }
}

} // verus!
