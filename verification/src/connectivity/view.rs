//! What the Connectivity window shows for a menu and a snapshot.
use vstd::prelude::*;

use super::menu::{
    Menu, MAIN_BT_DEVICES, MAIN_BT_POWER, MAIN_WIFI_NETWORKS, MAIN_WIFI_POWER, spec_home,
};
use super::screen::{spec_screen_code, Screen};
use super::snapshot::{Snapshot, SnapshotView};

verus! {

/// One focusable row of the Connectivity window.
#[derive(Debug, Clone)]
pub struct ConnItem {
    pub title: String,
    pub detail: String,
    pub badge: String,
    pub focused: bool,
}

/// Abstract value of a [`ConnItem`].
pub struct ConnItemView {
    pub title: Seq<char>,
    pub detail: Seq<char>,
    pub badge: Seq<char>,
    pub focused: bool,
}

impl View for ConnItem {
    type V = ConnItemView;

    open spec fn view(&self) -> ConnItemView {
        ConnItemView {
            title: self.title@,
            detail: self.detail@,
            badge: self.badge@,
            focused: self.focused,
        }
    }
}

/// Every value the Connectivity window displays.
#[derive(Debug, Clone)]
pub struct ConnView {
    /// Screen discriminant (0 main, 1 Bluetooth list, 2 Wi-Fi list).
    pub screen: i32,
    pub busy: bool,
    pub bt_powered: bool,
    pub bt_connected: bool,
    /// Headset name, `—` when empty.
    pub bt_device: String,
    pub bt_battery: i32,
    pub wifi_powered: bool,
    pub wifi_connected: bool,
    /// SSID, `—` when empty.
    pub wifi_ssid: String,
    /// Status line.
    pub status: String,
    /// Rows of the current screen.
    pub items: Vec<ConnItem>,
}

/// Abstract value of a [`ConnView`].
pub struct ConnViewModel {
    pub screen: i32,
    pub busy: bool,
    pub bt_powered: bool,
    pub bt_connected: bool,
    pub bt_device: Seq<char>,
    pub bt_battery: i32,
    pub wifi_powered: bool,
    pub wifi_connected: bool,
    pub wifi_ssid: Seq<char>,
    pub status: Seq<char>,
    pub items: Seq<ConnItemView>,
}

/// The abstract values of a sequence of rows.
pub open spec fn item_views(items: Seq<ConnItem>) -> Seq<ConnItemView> {
    items.map_values(|i: ConnItem| i@)
}

impl View for ConnView {
    type V = ConnViewModel;

    open spec fn view(&self) -> ConnViewModel {
        ConnViewModel {
            screen: self.screen,
            busy: self.busy,
            bt_powered: self.bt_powered,
            bt_connected: self.bt_connected,
            bt_device: self.bt_device@,
            bt_battery: self.bt_battery,
            wifi_powered: self.wifi_powered,
            wifi_connected: self.wifi_connected,
            wifi_ssid: self.wifi_ssid@,
            status: self.status@,
            items: item_views(self.items@),
        }
    }
}

pub open spec fn row(title: Seq<char>, detail: Seq<char>, badge: Seq<char>, focused: bool) -> ConnItemView {
    ConnItemView { title, detail, badge, focused }
}

/// Badge of a radio row.
pub open spec fn on_off(powered: bool) -> Seq<char> {
    if powered {
        "ON"@
    } else {
        "OFF"@
    }
}

/// Detail line of the Bluetooth row.
pub open spec fn bt_detail(snap: SnapshotView) -> Seq<char> {
    if snap.bt_connected {
        snap.bt_device
    } else if snap.bt_powered {
        "No headset connected"@
    } else {
        "Radio off"@
    }
}

/// Detail line of the Wi-Fi row.
pub open spec fn wifi_detail(snap: SnapshotView) -> Seq<char> {
    if snap.wifi_connected {
        snap.wifi_ssid
    } else if snap.wifi_powered {
        "Not associated"@
    } else {
        "Radio off"@
    }
}

/// Rows of the main menu.
pub open spec fn main_rows(focus: usize, snap: SnapshotView) -> Seq<ConnItemView> {
    seq![
        row("Bluetooth"@, bt_detail(snap), on_off(snap.bt_powered), focus == MAIN_BT_POWER),
        row("Devices"@, "Pair or connect headset"@, ""@, focus == MAIN_BT_DEVICES),
        row("Wi-Fi"@, wifi_detail(snap), on_off(snap.wifi_powered), focus == MAIN_WIFI_POWER),
        row("Networks"@, "Join a saved or open network"@, ""@, focus == MAIN_WIFI_NETWORKS),
    ]
}

/// Rows of the Bluetooth list: one per device, then the scan row.
pub open spec fn bt_rows(focus: usize, snap: SnapshotView) -> Seq<ConnItemView> {
    Seq::new(
        snap.devices.len(),
        |i: int|
            row(
                snap.devices[i].title,
                snap.devices[i].detail,
                snap.devices[i].badge,
                focus == i,
            ),
    ).push(
        row(
            "Scan for headsets"@,
            "Discover nearby Bluetooth devices"@,
            ""@,
            focus == snap.devices.len(),
        ),
    )
}

/// Rows of the Wi-Fi list: one per network, then the rescan row.
pub open spec fn wifi_rows(focus: usize, snap: SnapshotView) -> Seq<ConnItemView> {
    Seq::new(
        snap.networks.len(),
        |i: int|
            row(
                snap.networks[i].title,
                snap.networks[i].detail,
                snap.networks[i].badge,
                focus == i,
            ),
    ).push(
        row(
            "Rescan networks"@,
            "Refresh Wi-Fi scan results"@,
            ""@,
            focus == snap.networks.len(),
        ),
    )
}

/// Rows for the current screen with the focus flag set.
pub open spec fn spec_build_items(menu: Menu, snap: SnapshotView) -> Seq<ConnItemView> {
    match menu.screen {
        Screen::Main => main_rows(menu.focus, snap),
        Screen::BtList => bt_rows(menu.focus, snap),
        Screen::WifiList => wifi_rows(menu.focus, snap),
    }
}

/// `s`, or `—` when `s` is empty.
pub open spec fn or_dash(s: Seq<char>) -> Seq<char> {
    if s.len() == 0 {
        "—"@
    } else {
        s
    }
}

/// Status line: the snapshot's, or a hint when no backend is reachable and
/// there is no status to show.
pub open spec fn status_line(snap: SnapshotView) -> Seq<char> {
    if !snap.available && snap.status.len() == 0 {
        "BlueZ / connman unavailable — connect radios on the device image."@
    } else {
        snap.status
    }
}

/// Everything the window shows for `menu` and `snap`.
pub open spec fn spec_apply(menu: Menu, snap: SnapshotView) -> ConnViewModel {
    ConnViewModel {
        screen: spec_screen_code(menu.screen),
        busy: snap.busy,
        bt_powered: snap.bt_powered,
        bt_connected: snap.bt_connected,
        bt_device: or_dash(snap.bt_device),
        bt_battery: snap.bt_battery,
        wifi_powered: snap.wifi_powered,
        wifi_connected: snap.wifi_connected,
        wifi_ssid: or_dash(snap.wifi_ssid),
        status: status_line(snap),
        items: spec_build_items(menu, snap),
    }
}

/// The snapshot shown at startup, before the first poll.
pub open spec fn spec_idle_snapshot() -> SnapshotView {
    SnapshotView {
        bt_powered: false,
        bt_connected: false,
        bt_device: Seq::empty(),
        bt_battery: -1i32,
        wifi_powered: false,
        wifi_connected: false,
        wifi_ssid: Seq::empty(),
        devices: Seq::empty(),
        networks: Seq::empty(),
        status: "Starting connectivity…"@,
        busy: false,
        available: false,
    }
}

/// Build one focusable row.
fn item(title: &str, detail: &str, badge: &str, focused: bool) -> (it: ConnItem)
    ensures
        it@ == row(title@, detail@, badge@, focused),
{
    ConnItem {
        title: title.to_owned(),
        detail: detail.to_owned(),
        badge: badge.to_owned(),
        focused,
    }
}

/// Rows for the current screen with the focus flag set.
pub fn build_items(menu: &Menu, snap: &Snapshot) -> (items: Vec<ConnItem>)
    ensures
        item_views(items@) == spec_build_items(*menu, snap@),
{
    match menu.screen {
        Screen::Main => {
            let bt_badge = if snap.bt_powered {
                "ON"
            } else {
                "OFF"
            };
            let wifi_badge = if snap.wifi_powered {
                "ON"
            } else {
                "OFF"
            };
            let bt_detail = if snap.bt_connected {
                snap.bt_device.as_str()
            } else if snap.bt_powered {
                "No headset connected"
            } else {
                "Radio off"
            };
            let wifi_detail = if snap.wifi_connected {
                snap.wifi_ssid.as_str()
            } else if snap.wifi_powered {
                "Not associated"
            } else {
                "Radio off"
            };
            let items = vec![
                item("Bluetooth", bt_detail, bt_badge, menu.focus == MAIN_BT_POWER),
                item("Devices", "Pair or connect headset", "", menu.focus == MAIN_BT_DEVICES),
                item("Wi-Fi", wifi_detail, wifi_badge, menu.focus == MAIN_WIFI_POWER),
                item(
                    "Networks",
                    "Join a saved or open network",
                    "",
                    menu.focus == MAIN_WIFI_NETWORKS,
                ),
            ];
            assert(item_views(items@) =~= main_rows(menu.focus, snap@));
            items
        },
        Screen::BtList => {
            let mut rows: Vec<ConnItem> = Vec::new();
            let n = snap.devices.len();
            let ghost model = snap@;
            for i in 0..n
                invariant
                    n == snap.devices@.len(),
                    model == snap@,
                    rows@.len() == i,
                    forall|k: int|
                        0 <= k < i ==> #[trigger] rows@[k]@ == row(
                            model.devices[k].title,
                            model.devices[k].detail,
                            model.devices[k].badge,
                            menu.focus == k,
                        ),
            {
                let d = &snap.devices[i];
                rows.push(
                    ConnItem {
                        title: d.title.clone(),
                        detail: d.detail.clone(),
                        badge: d.badge.clone(),
                        focused: menu.focus == i,
                    },
                );
            }
            let scan_i = rows.len();
            rows.push(
                item(
                    "Scan for headsets",
                    "Discover nearby Bluetooth devices",
                    "",
                    menu.focus == scan_i,
                ),
            );
            assert(item_views(rows@) =~= bt_rows(menu.focus, snap@));
            rows
        },
        Screen::WifiList => {
            let mut rows: Vec<ConnItem> = Vec::new();
            let n = snap.networks.len();
            let ghost model = snap@;
            for i in 0..n
                invariant
                    n == snap.networks@.len(),
                    model == snap@,
                    rows@.len() == i,
                    forall|k: int|
                        0 <= k < i ==> #[trigger] rows@[k]@ == row(
                            model.networks[k].title,
                            model.networks[k].detail,
                            model.networks[k].badge,
                            menu.focus == k,
                        ),
            {
                let w = &snap.networks[i];
                rows.push(
                    ConnItem {
                        title: w.title.clone(),
                        detail: w.detail.clone(),
                        badge: w.badge.clone(),
                        focused: menu.focus == i,
                    },
                );
            }
            let scan_i = rows.len();
            rows.push(
                item("Rescan networks", "Refresh Wi-Fi scan results", "", menu.focus == scan_i),
            );
            assert(item_views(rows@) =~= wifi_rows(menu.focus, snap@));
            rows
        },
    }
}

/// Everything the dashboard shows for the current menu and snapshot.
pub fn apply(menu: &Menu, snap: &Snapshot) -> (v: ConnView)
    ensures
        v@ == spec_apply(*menu, snap@),
{
    let bt_device = if snap.bt_device.as_str().is_empty() {
        "—".to_owned()
    } else {
        snap.bt_device.clone()
    };
    let wifi_ssid = if snap.wifi_ssid.as_str().is_empty() {
        "—".to_owned()
    } else {
        snap.wifi_ssid.clone()
    };
    let status = if !snap.available && snap.status.as_str().is_empty() {
        "BlueZ / connman unavailable — connect radios on the device image.".to_owned()
    } else {
        snap.status.clone()
    };
    ConnView {
        screen: menu.screen.as_i32(),
        busy: snap.busy,
        bt_powered: snap.bt_powered,
        bt_connected: snap.bt_connected,
        bt_device,
        bt_battery: snap.bt_battery,
        wifi_powered: snap.wifi_powered,
        wifi_connected: snap.wifi_connected,
        wifi_ssid,
        status,
        items: build_items(menu, snap),
    }
}

/// What the window shows at startup, before the first poll.
pub fn apply_idle() -> (v: ConnView)
    ensures
        v@ == spec_apply(spec_home(), spec_idle_snapshot()),
{
    let menu = Menu::default();
    let mut snap = Snapshot::default();
    snap.status = "Starting connectivity…".to_owned();
    snap.bt_battery = -1;
    assert(snap@ == spec_idle_snapshot());
    apply(&menu, &snap)
}

/// The window shows exactly one row per focusable position of the screen,
/// and only the focused row is highlighted.
pub proof fn lemma_rows_match_focus(menu: Menu, snap: SnapshotView)
    requires
        snap.devices.len() < usize::MAX,
        snap.networks.len() < usize::MAX,
    ensures
        spec_build_items(menu, snap).len() == super::menu::spec_item_count(menu.screen, snap),
        forall|k: int|
            0 <= k < spec_build_items(menu, snap).len() ==> (#[trigger] spec_build_items(
                menu,
                snap,
            )[k]).focused == (k == menu.focus),
{
}


/// The Wi-Fi list shows, in order, each network's own title, detail line and
/// badge, highlighted when focused, then the rescan row.
pub proof fn lemma_wifi_list_rows(menu: Menu, snap: SnapshotView)
    requires
        menu.screen == Screen::WifiList,
    ensures
        spec_build_items(menu, snap).len() == snap.networks.len() + 1,
        forall|i: int|
            0 <= i < snap.networks.len() ==> {
                let it = #[trigger] spec_build_items(menu, snap)[i];
                &&& it.title == snap.networks[i].title
                &&& it.detail == snap.networks[i].detail
                &&& it.badge == snap.networks[i].badge
                &&& it.focused == (menu.focus == i)
            },
        ({
            let last = spec_build_items(menu, snap)[snap.networks.len() as int];
            &&& last.title == "Rescan networks"@
            &&& last.detail == "Refresh Wi-Fi scan results"@
            &&& last.badge == Seq::<char>::empty()
            &&& last.focused == (menu.focus == snap.networks.len())
        }),
{
    reveal_strlit("");
}

/// The Bluetooth list shows, in order, each device's own title, detail line
/// and badge, highlighted when focused, then the scan row.
pub proof fn lemma_bt_list_rows(menu: Menu, snap: SnapshotView)
    requires
        menu.screen == Screen::BtList,
    ensures
        spec_build_items(menu, snap).len() == snap.devices.len() + 1,
        forall|i: int|
            0 <= i < snap.devices.len() ==> {
                let it = #[trigger] spec_build_items(menu, snap)[i];
                &&& it.title == snap.devices[i].title
                &&& it.detail == snap.devices[i].detail
                &&& it.badge == snap.devices[i].badge
                &&& it.focused == (menu.focus == i)
            },
        ({
            let last = spec_build_items(menu, snap)[snap.devices.len() as int];
            &&& last.title == "Scan for headsets"@
            &&& last.detail == "Discover nearby Bluetooth devices"@
            &&& last.badge == Seq::<char>::empty()
            &&& last.focused == (menu.focus == snap.devices.len())
        }),
{
    reveal_strlit("");
}

/// The main menu shows the Bluetooth, Devices, Wi-Fi and Networks rows; a
/// radio row's badge is `ON` exactly when the radio is powered, and its
/// detail names the connected headset / network, else says whether the
/// radio is on.
pub proof fn lemma_main_menu_rows(menu: Menu, snap: SnapshotView)
    requires
        menu.screen == Screen::Main,
    ensures
        ({
            let items = spec_build_items(menu, snap);
            &&& items.len() == 4
            &&& items[0].title == "Bluetooth"@ && items[1].title == "Devices"@
            &&& items[2].title == "Wi-Fi"@ && items[3].title == "Networks"@
            &&& items[0].badge == (if snap.bt_powered { "ON"@ } else { "OFF"@ })
            &&& items[2].badge == (if snap.wifi_powered { "ON"@ } else { "OFF"@ })
            &&& items[1].badge == Seq::<char>::empty() && items[3].badge == Seq::<char>::empty()
            &&& snap.bt_connected ==> items[0].detail == snap.bt_device
            &&& !snap.bt_connected && snap.bt_powered ==> items[0].detail
                == "No headset connected"@
            &&& !snap.bt_connected && !snap.bt_powered ==> items[0].detail == "Radio off"@
            &&& snap.wifi_connected ==> items[2].detail == snap.wifi_ssid
            &&& !snap.wifi_connected && snap.wifi_powered ==> items[2].detail
                == "Not associated"@
            &&& !snap.wifi_connected && !snap.wifi_powered ==> items[2].detail == "Radio off"@
            &&& items[1].detail == "Pair or connect headset"@
            &&& items[3].detail == "Join a saved or open network"@
            &&& forall|k: int| 0 <= k < 4 ==> (#[trigger] items[k]).focused == (menu.focus == k)
        }),
{
    reveal_strlit("");
}

/// The window passes the snapshot's flags and battery through, shows the
/// headset name and SSID (a dash when empty), the snapshot's status (a hint
/// when no backend is reachable and there is no status) and the screen's
/// number.
pub proof fn lemma_apply_fields(menu: Menu, snap: SnapshotView)
    ensures
        ({
            let v = spec_apply(menu, snap);
            &&& v.busy == snap.busy && v.bt_powered == snap.bt_powered
            &&& v.bt_connected == snap.bt_connected && v.bt_battery == snap.bt_battery
            &&& v.wifi_powered == snap.wifi_powered && v.wifi_connected == snap.wifi_connected
            &&& snap.bt_device.len() > 0 ==> v.bt_device == snap.bt_device
            &&& snap.bt_device.len() == 0 ==> v.bt_device == "—"@
            &&& snap.wifi_ssid.len() > 0 ==> v.wifi_ssid == snap.wifi_ssid
            &&& snap.wifi_ssid.len() == 0 ==> v.wifi_ssid == "—"@
            &&& (snap.available || snap.status.len() > 0) ==> v.status == snap.status
            &&& (!snap.available && snap.status.len() == 0) ==> v.status
                == "BlueZ / connman unavailable — connect radios on the device image."@
            &&& v.screen == (match menu.screen {
                Screen::Main => 0i32,
                Screen::BtList => 1i32,
                Screen::WifiList => 2i32,
            })
            &&& v.items == spec_build_items(menu, snap)
        }),
{
}

/// At startup the window shows the main menu focused on its first row, the
/// battery as unknown, empty names as dashes and the starting status.
pub proof fn lemma_idle_view()
    ensures
        ({
            let v = spec_apply(spec_home(), spec_idle_snapshot());
            &&& v.screen == 0 && !v.busy && !v.bt_powered && !v.wifi_powered
            &&& v.bt_battery == -1
            &&& v.bt_device == "—"@ && v.wifi_ssid == "—"@
            &&& v.status == "Starting connectivity…"@
            &&& v.items.len() == 4 && v.items[0].focused
        }),
{
    reveal_strlit("Starting connectivity…");
}

} // verus!
