use sigma_instrumentation::connectivity::{
    apply, apply_idle, build_items, Action, BackResult, Controller, DeviceRow, Menu, NetworkRow,
    Screen, Snapshot, MAIN_BT_DEVICES, MAIN_BT_POWER, MAIN_COUNT, MAIN_WIFI_NETWORKS,
    MAIN_WIFI_POWER, WINDOW,
};

fn device(title: &str, detail: &str, badge: &str) -> DeviceRow {
    DeviceRow {
        path: format!("/org/bluez/{title}"),
        title: title.to_string(),
        detail: detail.to_string(),
        badge: badge.to_string(),
        connected: false,
        paired: true,
    }
}

fn network(title: &str) -> NetworkRow {
    NetworkRow {
        path: format!("/net/connman/{title}"),
        title: title.to_string(),
        detail: "72%".to_string(),
        badge: "SECURE".to_string(),
        connected: false,
        favorite: false,
    }
}

fn snap_with(devices: usize, networks: usize) -> Snapshot {
    let mut s = Snapshot::default();
    for i in 0..devices {
        s.devices.push(device(&format!("Headset {i}"), "Paired", ""));
    }
    for i in 0..networks {
        s.networks.push(network(&format!("ssid{i}")));
    }
    s
}

#[test]
fn main_menu_rows_and_constants() {
    assert_eq!(MAIN_BT_POWER, 0);
    assert_eq!(MAIN_BT_DEVICES, 1);
    assert_eq!(MAIN_WIFI_POWER, 2);
    assert_eq!(MAIN_WIFI_NETWORKS, 3);
    assert_eq!(MAIN_COUNT, 4);
    assert_eq!(WINDOW, 5);
}

#[test]
fn screen_discriminants() {
    assert_eq!(Screen::Main.as_i32(), 0);
    assert_eq!(Screen::BtList.as_i32(), 1);
    assert_eq!(Screen::WifiList.as_i32(), 2);
    assert_eq!(Screen::default(), Screen::Main);
}

#[test]
fn item_count_per_screen() {
    let snap = snap_with(3, 5);
    let mut m = Menu::default();
    assert_eq!(m.item_count(&snap), 4);
    m.screen = Screen::BtList;
    assert_eq!(m.item_count(&snap), 4);
    m.screen = Screen::WifiList;
    assert_eq!(m.item_count(&snap), 6);
    let empty = Snapshot::default();
    assert_eq!(m.item_count(&empty), 1);
}

#[test]
fn edges_of_main_menu_leave_window() {
    let snap = Snapshot::default();
    let mut m = Menu::default();
    assert_eq!(m.move_focus(&snap, -1), Some(-1));
    assert_eq!((m.screen, m.focus), (Screen::Main, 0));
    m.focus = 3;
    assert_eq!(m.move_focus(&snap, 1), Some(1));
    assert_eq!(m.focus, 3);
}

#[test]
fn focus_moves_and_clamps_inside_lists() {
    let snap = snap_with(2, 0);
    let mut m = Menu { screen: Screen::BtList, focus: 0 };
    assert_eq!(m.move_focus(&snap, -1), None);
    assert_eq!(m.focus, 0);
    assert_eq!(m.move_focus(&snap, 1), None);
    assert_eq!(m.focus, 1);
    assert_eq!(m.move_focus(&snap, 10), None);
    assert_eq!(m.focus, 2);
    assert_eq!(m.move_focus(&snap, -1), None);
    assert_eq!(m.focus, 1);
}

#[test]
fn main_menu_interior_moves_by_delta() {
    let snap = Snapshot::default();
    let mut m = Menu::default();
    assert_eq!(m.move_focus(&snap, 2), None);
    assert_eq!(m.focus, 2);
    assert_eq!(m.move_focus(&snap, 5), None);
    assert_eq!(m.focus, 3);
}

#[test]
fn select_on_main_rows() {
    let snap = Snapshot::default();
    let mut m = Menu::default();
    assert_eq!(m.select(&snap), Some(Action::ToggleBt));
    assert_eq!(m.screen, Screen::Main);
    m.focus = MAIN_WIFI_POWER;
    assert_eq!(m.select(&snap), Some(Action::ToggleWifi));
    m.focus = MAIN_BT_DEVICES;
    assert_eq!(m.select(&snap), Some(Action::OpenBtList));
    assert_eq!((m.screen, m.focus), (Screen::BtList, 0));
    m.reset();
    m.focus = MAIN_WIFI_NETWORKS;
    assert_eq!(m.select(&snap), Some(Action::OpenWifiList));
    assert_eq!((m.screen, m.focus), (Screen::WifiList, 0));
    let mut odd = Menu { screen: Screen::Main, focus: 9 };
    assert_eq!(odd.select(&snap), None);
    assert_eq!(odd.focus, 9);
}

#[test]
fn select_in_lists() {
    let snap = snap_with(2, 1);
    let mut m = Menu { screen: Screen::BtList, focus: 1 };
    assert_eq!(m.select(&snap), Some(Action::SelectDevice(1)));
    m.focus = 2;
    assert_eq!(m.select(&snap), Some(Action::BtScan));
    let mut w = Menu { screen: Screen::WifiList, focus: 0 };
    assert_eq!(w.select(&snap), Some(Action::SelectNetwork(0)));
    w.focus = 1;
    assert_eq!(w.select(&snap), Some(Action::WifiScan));
}

#[test]
fn back_levels() {
    let mut m = Menu { screen: Screen::WifiList, focus: 3 };
    assert_eq!(m.back(), BackResult::Stay);
    assert_eq!((m.screen, m.focus), (Screen::Main, 0));
    assert_eq!(m.back(), BackResult::LeaveWindow);
    assert_eq!((m.screen, m.focus), (Screen::Main, 0));
}

#[test]
fn open_list_then_back_returns_home() {
    let snap = snap_with(1, 1);
    for row in [MAIN_BT_DEVICES, MAIN_WIFI_NETWORKS] {
        let mut m = Menu { screen: Screen::Main, focus: row };
        m.select(&snap);
        assert_ne!(m.screen, Screen::Main);
        assert_eq!(m.back(), BackResult::Stay);
        assert_eq!((m.screen, m.focus), (Screen::Main, 0));
    }
}

#[test]
fn focus_stays_on_a_row_through_a_session() {
    let snap = snap_with(3, 2);
    let mut m = Menu::default();
    let steps: [i32; 8] = [1, 1, 5, -2, -9, 3, 1, -1];
    for (k, d) in steps.iter().enumerate() {
        if k == 2 {
            m.focus = MAIN_BT_DEVICES;
            m.select(&snap);
        }
        if m.move_focus(&snap, *d).is_none() {
            assert!(m.focus < m.item_count(&snap));
        }
    }
}

#[test]
fn build_items_main_menu() {
    let mut snap = Snapshot::default();
    snap.bt_powered = true;
    snap.wifi_powered = true;
    snap.wifi_connected = true;
    snap.wifi_ssid = "garage".to_string();
    let m = Menu { screen: Screen::Main, focus: 2 };
    let items = build_items(&m, &snap);
    assert_eq!(items.len(), 4);
    assert_eq!(items[0].title, "Bluetooth");
    assert_eq!(items[0].detail, "No headset connected");
    assert_eq!(items[0].badge, "ON");
    assert_eq!(items[1].title, "Devices");
    assert_eq!(items[1].detail, "Pair or connect headset");
    assert_eq!(items[1].badge, "");
    assert_eq!(items[2].title, "Wi-Fi");
    assert_eq!(items[2].detail, "garage");
    assert_eq!(items[2].badge, "ON");
    assert_eq!(items[3].title, "Networks");
    assert_eq!(items[3].detail, "Join a saved or open network");
    let focused: Vec<bool> = items.iter().map(|i| i.focused).collect();
    assert_eq!(focused, vec![false, false, true, false]);
}

#[test]
fn build_items_radio_details() {
    let mut snap = Snapshot::default();
    let m = Menu::default();
    let items = build_items(&m, &snap);
    assert_eq!(items[0].detail, "Radio off");
    assert_eq!(items[0].badge, "OFF");
    assert_eq!(items[2].detail, "Radio off");
    assert_eq!(items[2].badge, "OFF");
    snap.bt_powered = true;
    snap.bt_connected = true;
    snap.bt_device = "Sena 50S".to_string();
    snap.wifi_powered = true;
    let items = build_items(&m, &snap);
    assert_eq!(items[0].detail, "Sena 50S");
    assert_eq!(items[2].detail, "Not associated");
}

#[test]
fn build_items_lists_end_with_scan_row() {
    let snap = snap_with(2, 1);
    let m = Menu { screen: Screen::BtList, focus: 2 };
    let items = build_items(&m, &snap);
    assert_eq!(items.len(), 3);
    assert_eq!(items[0].title, "Headset 0");
    assert_eq!(items[0].detail, "Paired");
    assert_eq!(items[2].title, "Scan for headsets");
    assert_eq!(items[2].detail, "Discover nearby Bluetooth devices");
    assert!(items[2].focused && !items[0].focused && !items[1].focused);

    let w = Menu { screen: Screen::WifiList, focus: 0 };
    let items = build_items(&w, &snap);
    assert_eq!(items.len(), 2);
    assert_eq!(items[0].title, "ssid0");
    assert_eq!(items[0].badge, "SECURE");
    assert!(items[0].focused);
    assert_eq!(items[1].title, "Rescan networks");
    assert_eq!(items[1].detail, "Refresh Wi-Fi scan results");
    assert!(!items[1].focused);
}

#[test]
fn rows_count_matches_item_count() {
    let snap = snap_with(4, 2);
    for screen in [Screen::Main, Screen::BtList, Screen::WifiList] {
        let m = Menu { screen, focus: 1 };
        let items = build_items(&m, &snap);
        assert_eq!(items.len(), m.item_count(&snap));
        assert_eq!(items.iter().filter(|i| i.focused).count(), 1);
        assert!(items[1].focused);
    }
}

#[test]
fn apply_fills_placeholders() {
    let m = Menu::default();
    let snap = Snapshot::default();
    let v = apply(&m, &snap);
    assert_eq!(v.screen, 0);
    assert_eq!(v.bt_device, "—");
    assert_eq!(v.wifi_ssid, "—");
    assert_eq!(
        v.status,
        "BlueZ / connman unavailable — connect radios on the device image."
    );
    assert_eq!(v.items.len(), 4);
}

#[test]
fn apply_passes_values_through() {
    let m = Menu { screen: Screen::WifiList, focus: 0 };
    let mut snap = snap_with(0, 1);
    snap.available = true;
    snap.busy = true;
    snap.bt_battery = 80;
    snap.bt_device = "Cardo".to_string();
    snap.wifi_ssid = "pit".to_string();
    let v = apply(&m, &snap);
    assert_eq!(v.screen, 2);
    assert!(v.busy);
    assert_eq!(v.bt_battery, 80);
    assert_eq!(v.bt_device, "Cardo");
    assert_eq!(v.wifi_ssid, "pit");
    assert_eq!(v.status, "");
    assert_eq!(v.items.len(), 2);
    snap.available = false;
    snap.status = "Scanning".to_string();
    assert_eq!(apply(&m, &snap).status, "Scanning");
}

#[test]
fn apply_idle_shows_startup_state() {
    let v = apply_idle();
    assert_eq!(v.screen, 0);
    assert_eq!(v.status, "Starting connectivity…");
    assert_eq!(v.bt_battery, -1);
    assert_eq!(v.bt_device, "—");
    assert!(!v.busy && !v.bt_powered && !v.wifi_powered);
    assert_eq!(v.items.len(), 4);
    assert!(v.items[0].focused);
}

#[test]
fn controller_starts_with_unknown_battery() {
    let c = Controller::new();
    assert_eq!((c.menu.screen, c.menu.focus), (Screen::Main, 0));
    assert_eq!(c.snap.bt_battery, -1);
    assert_eq!(c.snap.status, "");
    assert!(c.snap.devices.is_empty());
    let d = Controller::default();
    assert_eq!(d.snap.bt_battery, -1);
    let v = c.paint();
    assert_eq!(v.bt_battery, -1);
    assert_eq!(v.items.len(), 4);
}
