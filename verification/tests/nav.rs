use sigma_instrumentation::nav::{close_if_moving, nav_next, nav_prev, nav_select, WindowSelect};

const COUNT: i32 = 10;
const PANEL_MAX: i32 = 4;

#[test]
fn stopped_cycles_all_windows() {
    assert_eq!(nav_next(0, true, COUNT, PANEL_MAX), 1);
    assert_eq!(nav_next(9, true, COUNT, PANEL_MAX), 0);
    assert_eq!(nav_prev(0, true, COUNT, PANEL_MAX), 9);
    assert_eq!(nav_prev(6, true, COUNT, PANEL_MAX), 5);
}

#[test]
fn moving_cycles_panel_windows_only() {
    assert_eq!(nav_next(3, false, COUNT, PANEL_MAX), 4);
    assert_eq!(nav_next(4, false, COUNT, PANEL_MAX), 0);
    assert_eq!(nav_prev(0, false, COUNT, PANEL_MAX), 4);
    assert_eq!(nav_next(7, false, COUNT, PANEL_MAX), 0);
    assert_eq!(nav_prev(7, false, COUNT, PANEL_MAX), 3);
}

#[test]
fn out_of_range_window_wraps_like_rem_euclid() {
    assert_eq!(nav_next(-5, true, COUNT, PANEL_MAX), (-4i32).rem_euclid(COUNT));
    assert_eq!(nav_prev(-20, true, COUNT, PANEL_MAX), (-21i32).rem_euclid(COUNT));
    assert_eq!(nav_next(123, true, COUNT, PANEL_MAX), 4);
    assert_eq!(nav_prev(-7, false, COUNT, PANEL_MAX), 4);
}

#[test]
fn next_then_prev_round_trips() {
    for w in 0..COUNT {
        assert_eq!(nav_prev(nav_next(w, true, COUNT, PANEL_MAX), true, COUNT, PANEL_MAX), w);
        assert_eq!(nav_next(nav_prev(w, true, COUNT, PANEL_MAX), true, COUNT, PANEL_MAX), w);
    }
    for w in 0..=PANEL_MAX {
        assert_eq!(nav_prev(nav_next(w, false, COUNT, PANEL_MAX), false, COUNT, PANEL_MAX), w);
    }
}

#[test]
fn select_rules() {
    assert_eq!(nav_select(-1, true, COUNT, PANEL_MAX), WindowSelect::Ignored);
    assert_eq!(nav_select(10, true, COUNT, PANEL_MAX), WindowSelect::Ignored);
    assert_eq!(nav_select(7, false, COUNT, PANEL_MAX), WindowSelect::Blocked);
    assert_eq!(nav_select(7, true, COUNT, PANEL_MAX), WindowSelect::Open(7));
    assert_eq!(nav_select(2, false, COUNT, PANEL_MAX), WindowSelect::Open(2));
}

#[test]
fn full_screen_closes_when_moving() {
    assert_eq!(close_if_moving(6, false, PANEL_MAX), 0);
    assert_eq!(close_if_moving(6, true, PANEL_MAX), 6);
    assert_eq!(close_if_moving(3, false, PANEL_MAX), 3);
}
