//! Focus model for the three connectivity screens.
use vstd::prelude::*;

use super::action::Action;
use super::back_result::BackResult;
use super::screen::Screen;
use super::snapshot::{Snapshot, SnapshotView};

verus! {

/// Main-menu row: Bluetooth power.
pub const MAIN_BT_POWER: usize = 0;
/// Main-menu row: "Devices".
pub const MAIN_BT_DEVICES: usize = 1;
/// Main-menu row: "Wi-Fi".
pub const MAIN_WIFI_POWER: usize = 2;
/// Main-menu row: "Networks".
pub const MAIN_WIFI_NETWORKS: usize = 3;
/// Number of main-menu rows.
pub const MAIN_COUNT: usize = 4;

/// Current screen plus the focused row on it.
#[derive(Debug, Clone)]
pub struct Menu {
    /// Which screen is showing.
    pub screen: Screen,
    /// Focused row index on that screen.
    pub focus: usize,
}

/// The main menu with focus on its first row.
pub open spec fn spec_home() -> Menu {
    Menu { screen: Screen::Main, focus: 0 }
}

/// `n + 1`, saturating at `usize::MAX`.
pub open spec fn saturating_succ(n: nat) -> int {
    if n + 1 > usize::MAX {
        usize::MAX as int
    } else {
        n + 1 as int
    }
}

/// Number of focusable rows on `screen`: the four main rows, or one row per
/// list entry plus the trailing scan row.
pub open spec fn spec_item_count(screen: Screen, snap: SnapshotView) -> int {
    match screen {
        Screen::Main => MAIN_COUNT as int,
        Screen::BtList => saturating_succ(snap.devices.len()),
        Screen::WifiList => saturating_succ(snap.networks.len()),
    }
}

/// Rows the focus moves over: the item count, at least one.
pub open spec fn spec_focus_span(screen: Screen, snap: SnapshotView) -> int {
    let c = spec_item_count(screen, snap);
    if c < 1 {
        1
    } else {
        c
    }
}

/// The window step taken when moving focus past the first/last main-menu row.
pub open spec fn spec_edge_exit(m: Menu, snap: SnapshotView, delta: i32) -> Option<i32> {
    if m.screen == Screen::Main && delta < 0 && m.focus == 0 {
        Some(-1i32)
    } else if m.screen == Screen::Main && delta > 0 && m.focus + 1 >= spec_focus_span(
        m.screen,
        snap,
    ) {
        Some(1i32)
    } else {
        None
    }
}

/// `v` clamped to `lo..=hi`.
pub open spec fn clamp_int(v: int, lo: int, hi: int) -> int {
    if v < lo {
        lo
    } else if v > hi {
        hi
    } else {
        v
    }
}

/// Inputs on which `Menu::move_focus` runs without arithmetic overflow and
/// with a non-empty clamp range.
pub open spec fn move_focus_defined(m: Menu, snap: SnapshotView, delta: i32) -> bool {
    &&& (m.screen == Screen::Main && delta > 0) ==> m.focus < usize::MAX
    &&& spec_edge_exit(m, snap, delta) is None ==> {
        &&& i32::MIN <= (m.focus as i32) + delta <= i32::MAX
        &&& (spec_focus_span(m.screen, snap) as i32) >= 1
    }
}

/// Menu after moving focus by `delta`, and the window step when it leaves
/// the window: the focus moves by `delta` (its index read as `i32`) and is
/// clamped to the rows of the screen.
pub open spec fn spec_move_focus(m: Menu, snap: SnapshotView, delta: i32) -> (Menu, Option<i32>) {
    match spec_edge_exit(m, snap, delta) {
        Some(step) => (m, Some(step)),
        None => (
            Menu {
                screen: m.screen,
                focus: clamp_int(
                    (m.focus as i32) + delta,
                    0,
                    (spec_focus_span(m.screen, snap) as i32) - 1,
                ) as usize,
            },
            None,
        ),
    }
}

/// Menu after Back, and what Back did.
pub open spec fn spec_back(m: Menu) -> (Menu, BackResult) {
    match m.screen {
        Screen::Main => (m, BackResult::LeaveWindow),
        _ => (spec_home(), BackResult::Stay),
    }
}

/// Menu after Select, and the action it requests.
pub open spec fn spec_select(m: Menu, snap: SnapshotView) -> (Menu, Option<Action>) {
    match m.screen {
        Screen::Main => if m.focus == MAIN_BT_POWER {
            (m, Some(Action::ToggleBt))
        } else if m.focus == MAIN_BT_DEVICES {
            (Menu { screen: Screen::BtList, focus: 0 }, Some(Action::OpenBtList))
        } else if m.focus == MAIN_WIFI_POWER {
            (m, Some(Action::ToggleWifi))
        } else if m.focus == MAIN_WIFI_NETWORKS {
            (Menu { screen: Screen::WifiList, focus: 0 }, Some(Action::OpenWifiList))
        } else {
            (m, None)
        },
        Screen::BtList => (
            m,
            if m.focus < snap.devices.len() {
                Some(Action::SelectDevice(m.focus))
            } else {
                Some(Action::BtScan)
            },
        ),
        Screen::WifiList => (
            m,
            if m.focus < snap.networks.len() {
                Some(Action::SelectNetwork(m.focus))
            } else {
                Some(Action::WifiScan)
            },
        ),
    }
}

/// The focus points at one of the rows of its screen.
pub open spec fn focus_in_range(m: Menu, snap: SnapshotView) -> bool {
    m.focus < spec_focus_span(m.screen, snap)
}

impl Default for Menu {
    fn default() -> (m: Menu)
        ensures
            m == spec_home(),
    {
        Menu { screen: Screen::Main, focus: 0 }
    }
}

impl Menu {
    /// Return to the main menu with focus at the top.
    pub fn reset(&mut self)
        ensures
            *final(self) == spec_home(),
    {
        self.screen = Screen::Main;
        self.focus = 0;
    }

    /// Number of focusable rows on the current screen.
    pub fn item_count(&self, snap: &Snapshot) -> (n: usize)
        ensures
            n == spec_item_count(self.screen, snap@),
    {
        match self.screen {
            Screen::Main => MAIN_COUNT,
            Screen::BtList => snap.devices.len().saturating_add(1),
            Screen::WifiList => snap.networks.len().saturating_add(1),
        }
    }

    /// Move focus by `delta`. Returns `Some(window_delta)` when leaving the
    /// window at the first/last edge on the main menu.
    pub fn move_focus(&mut self, snap: &Snapshot, delta: i32) -> (r: Option<i32>)
        requires
            move_focus_defined(*old(self), snap@, delta),
        ensures
            (*final(self), r) == spec_move_focus(*old(self), snap@, delta),
    {
        let n = self.item_count(snap);
        let count: usize = if n < 1 {
            1
        } else {
            n
        };
        if self.screen == Screen::Main {
            if delta < 0 && self.focus == 0 {
                return Some(-1);
            }
            if delta > 0 && self.focus + 1 >= count {
                return Some(1);
            }
        }
        let next: i32 = self.focus as i32 + delta;
        let hi: i32 = count as i32 - 1;
        let clamped: i32 = if next < 0 {
            0
        } else if next > hi {
            hi
        } else {
            next
        };
        self.focus = clamped as usize;
        None
    }

    /// Handle Back: leave a list for the main menu, or leave the window.
    pub fn back(&mut self) -> (r: BackResult)
        ensures
            (*final(self), r) == spec_back(*old(self)),
    {
        match self.screen {
            Screen::Main => BackResult::LeaveWindow,
            Screen::BtList | Screen::WifiList => {
                self.screen = Screen::Main;
                self.focus = 0;
                BackResult::Stay
            },
        }
    }

    /// Activate the focused row, entering lists as a side effect.
    pub fn select(&mut self, snap: &Snapshot) -> (r: Option<Action>)
        ensures
            (*final(self), r) == spec_select(*old(self), snap@),
    {
        match self.screen {
            Screen::Main => {
                if self.focus == MAIN_BT_POWER {
                    Some(Action::ToggleBt)
                } else if self.focus == MAIN_BT_DEVICES {
                    self.screen = Screen::BtList;
                    self.focus = 0;
                    Some(Action::OpenBtList)
                } else if self.focus == MAIN_WIFI_POWER {
                    Some(Action::ToggleWifi)
                } else if self.focus == MAIN_WIFI_NETWORKS {
                    self.screen = Screen::WifiList;
                    self.focus = 0;
                    Some(Action::OpenWifiList)
                } else {
                    None
                }
            },
            Screen::BtList => {
                let n = snap.devices.len();
                if self.focus < n {
                    Some(Action::SelectDevice(self.focus))
                } else {
                    Some(Action::BtScan)
                }
            },
            Screen::WifiList => {
                let n = snap.networks.len();
                if self.focus < n {
                    Some(Action::SelectNetwork(self.focus))
                } else {
                    Some(Action::WifiScan)
                }
            },
        }
    }
}

/// Opening a list from the main menu and pressing Back returns to the top of
/// the main menu without leaving the window.
pub proof fn lemma_open_list_then_back(m: Menu, snap: SnapshotView)
    requires
        m.screen == Screen::Main,
        m.focus == MAIN_BT_DEVICES || m.focus == MAIN_WIFI_NETWORKS,
    ensures
        spec_select(m, snap).0.screen != Screen::Main,
        spec_back(spec_select(m, snap).0) == (spec_home(), BackResult::Stay),
{
}

/// Back on the main menu leaves the window and changes nothing; Back from a
/// list always lands on the top of the main menu.
pub proof fn lemma_back_levels(m: Menu)
    ensures
        m.screen == Screen::Main ==> spec_back(m) == (m, BackResult::LeaveWindow),
        m.screen != Screen::Main ==> spec_back(m).0 == spec_home() && spec_back(spec_back(m).0).1
            == BackResult::LeaveWindow,
{
}

/// Every menu operation keeps the focus on a row of the current screen.
pub proof fn lemma_focus_stays_in_range(m: Menu, snap: SnapshotView, delta: i32)
    requires
        focus_in_range(m, snap),
    ensures
        focus_in_range(spec_home(), snap),
        focus_in_range(spec_back(m).0, snap),
        focus_in_range(spec_select(m, snap).0, snap),
        move_focus_defined(m, snap, delta) ==> focus_in_range(spec_move_focus(m, snap, delta).0, snap),
{
    if move_focus_defined(m, snap, delta) && spec_edge_exit(m, snap, delta) is None {
        let span = spec_focus_span(m.screen, snap);
        let hi = (span as i32) as int;
        assert(hi <= span) by {
            if span <= i32::MAX {
                assert((span as i32) as int == span);
            }
        }
    }
}

/// Moving up from the top of the main menu, or down from its bottom, leaves
/// the window in that direction and keeps the menu as it was.
pub proof fn lemma_main_menu_edges(snap: SnapshotView)
    ensures
        spec_move_focus(Menu { screen: Screen::Main, focus: 0 }, snap, -1i32) == (
            Menu { screen: Screen::Main, focus: 0 },
            Some(-1i32),
        ),
        spec_move_focus(Menu { screen: Screen::Main, focus: MAIN_WIFI_NETWORKS }, snap, 1i32) == (
            Menu { screen: Screen::Main, focus: MAIN_WIFI_NETWORKS },
            Some(1i32),
        ),
{
}


/// The main menu has four rows; a list has one row per entry plus its scan
/// row.
pub proof fn lemma_item_count_rows(screen: Screen, snap: SnapshotView)
    requires
        snap.devices.len() < usize::MAX,
        snap.networks.len() < usize::MAX,
    ensures
        screen == Screen::Main ==> spec_item_count(screen, snap) == 4,
        screen == Screen::BtList ==> spec_item_count(screen, snap) == snap.devices.len() + 1,
        screen == Screen::WifiList ==> spec_item_count(screen, snap) == snap.networks.len() + 1,
{
}

/// On the main menu, Prev/Next leave the window exactly at the edges: moving
/// up leaves only from the first row, moving down only from the last row
/// (or beyond), and a move that leaves changes nothing.
pub proof fn lemma_main_menu_leaves_only_at_edges(m: Menu, snap: SnapshotView, delta: i32)
    requires
        m.screen == Screen::Main,
    ensures
        spec_move_focus(m, snap, delta).1 == Some(-1i32) <==> (delta < 0 && m.focus == 0),
        spec_move_focus(m, snap, delta).1 == Some(1i32) <==> (delta > 0 && m.focus >= 3),
        spec_move_focus(m, snap, delta).1 is Some ==> spec_move_focus(m, snap, delta).0 == m,
{
}

/// Moving up on the main menu from any row but the first stays in the window
/// and moves the focus up by `-delta` rows, stopping at the first row.
pub proof fn lemma_main_menu_moves_up(m: Menu, snap: SnapshotView, delta: i32)
    requires
        m.screen == Screen::Main,
        0 < m.focus <= 3,
        delta < 0,
    ensures
        spec_move_focus(m, snap, delta).1 is None,
        spec_move_focus(m, snap, delta).0.screen == Screen::Main,
        spec_move_focus(m, snap, delta).0.focus == if m.focus + delta < 0 {
            0
        } else {
            m.focus + delta
        },
{
}

/// Moving down on the main menu from any row but the last stays in the
/// window and moves the focus down by `delta` rows, stopping at the last row.
pub proof fn lemma_main_menu_moves_down(m: Menu, snap: SnapshotView, delta: i32)
    requires
        m.screen == Screen::Main,
        m.focus < 3,
        delta > 0,
    ensures
        spec_move_focus(m, snap, delta).1 is None,
        spec_move_focus(m, snap, delta).0.screen == Screen::Main,
        spec_move_focus(m, snap, delta).0.focus == if m.focus + delta > 3 {
            3
        } else {
            m.focus + delta
        },
{
}

/// Inside a list the focus never leaves the window: it moves by `delta`
/// rows and stops at the first row and at the scan row (the last one).
pub proof fn lemma_list_moves_within(m: Menu, snap: SnapshotView, delta: i32)
    requires
        m.screen != Screen::Main,
        m.screen == Screen::BtList ==> snap.devices.len() < i32::MAX,
        m.screen == Screen::WifiList ==> snap.networks.len() < i32::MAX,
        focus_in_range(m, snap),
        i32::MIN <= m.focus + delta <= i32::MAX,
    ensures
        ({
            let last = if m.screen == Screen::BtList {
                snap.devices.len() as int
            } else {
                snap.networks.len() as int
            };
            let r = spec_move_focus(m, snap, delta);
            &&& r.1 is None
            &&& r.0.screen == m.screen
            &&& r.0.focus == if m.focus + delta < 0 {
                0
            } else if m.focus + delta > last {
                last
            } else {
                m.focus + delta
            }
        }),
{
    let span = spec_focus_span(m.screen, snap);
    assert((m.focus as i32) as int == m.focus as int);
    assert((span as i32) as int == span);
}

/// A zero move never leaves the window and keeps a focus that is on a row.
pub proof fn lemma_zero_move_keeps_focus(m: Menu, snap: SnapshotView)
    requires
        focus_in_range(m, snap),
        m.focus <= i32::MAX,
        spec_focus_span(m.screen, snap) <= i32::MAX,
    ensures
        spec_move_focus(m, snap, 0i32) == (m, Option::<i32>::None),
{
    let span = spec_focus_span(m.screen, snap);
    assert((m.focus as i32) as int == m.focus as int);
    assert((span as i32) as int == span);
}

/// Select on the main menu: the radio rows request a toggle and keep the
/// menu; the list rows open their list focused on its first row; any other
/// focus requests nothing and keeps the menu.
pub proof fn lemma_select_main_rows(m: Menu, snap: SnapshotView)
    requires
        m.screen == Screen::Main,
    ensures
        m.focus == 0 ==> spec_select(m, snap) == (m, Some(Action::ToggleBt)),
        m.focus == 1 ==> spec_select(m, snap) == (
            Menu { screen: Screen::BtList, focus: 0 },
            Some(Action::OpenBtList),
        ),
        m.focus == 2 ==> spec_select(m, snap) == (m, Some(Action::ToggleWifi)),
        m.focus == 3 ==> spec_select(m, snap) == (
            Menu { screen: Screen::WifiList, focus: 0 },
            Some(Action::OpenWifiList),
        ),
        m.focus >= 4 ==> spec_select(m, snap) == (m, Option::<Action>::None),
{
}

/// Select in a list never changes the menu: the focused entry is selected,
/// and the trailing row (at or past the last entry) starts a scan.
pub proof fn lemma_select_in_lists(m: Menu, snap: SnapshotView)
    requires
        m.screen != Screen::Main,
    ensures
        spec_select(m, snap).0 == m,
        m.screen == Screen::BtList && m.focus < snap.devices.len() ==> spec_select(m, snap).1
            == Some(Action::SelectDevice(m.focus)),
        m.screen == Screen::BtList && m.focus >= snap.devices.len() ==> spec_select(m, snap).1
            == Some(Action::BtScan),
        m.screen == Screen::WifiList && m.focus < snap.networks.len() ==> spec_select(m, snap).1
            == Some(Action::SelectNetwork(m.focus)),
        m.screen == Screen::WifiList && m.focus >= snap.networks.len() ==> spec_select(m, snap).1
            == Some(Action::WifiScan),
{
}

/// The selected entry is always the focused one and exists in the snapshot.
pub proof fn lemma_selected_entry_exists(m: Menu, snap: SnapshotView)
    ensures
        spec_select(m, snap).1 matches Some(Action::SelectDevice(i)) ==> (i == m.focus && i
            < snap.devices.len() && m.screen == Screen::BtList),
        spec_select(m, snap).1 matches Some(Action::SelectNetwork(i)) ==> (i == m.focus && i
            < snap.networks.len() && m.screen == Screen::WifiList),
{
}

/// Back leaves the window from the main menu without changing it; from a
/// list it returns to the top of the main menu.
pub proof fn lemma_back_from_each_screen(m: Menu)
    ensures
        m.screen == Screen::Main ==> spec_back(m).0 == m && spec_back(m).1
            == BackResult::LeaveWindow,
        m.screen != Screen::Main ==> spec_back(m).0.screen == Screen::Main && spec_back(m).0.focus
            == 0 && spec_back(m).1 == BackResult::Stay,
{
}

} // verus!
