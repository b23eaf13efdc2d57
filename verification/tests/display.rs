use sigma_instrumentation::display::{panel_size_from_env, PANEL_HEIGHT, PANEL_WIDTH};
use sigma_instrumentation::text::parse_u32;
use sigma_instrumentation::{configure_window, fullscreen_requested, DisplayConfig, WindowAction};

#[test]
fn presets() {
    let v = DisplayConfig::virt_panel();
    assert_eq!(v.fixed_size, Some((800, 480)));
    assert_eq!((PANEL_WIDTH, PANEL_HEIGHT), (800, 480));
    assert!(!v.default_kiosk);
    let d = DisplayConfig::desktop();
    assert_eq!(d.fixed_size, None);
    assert!(!d.default_kiosk);
    let e = DisplayConfig::embedded(true);
    assert_eq!(e.fixed_size, None);
    assert!(e.default_kiosk);
    assert!(!DisplayConfig::embedded(false).default_kiosk);
}

#[test]
fn parse_u32_like_std() {
    for s in ["0", "7", "42", "+42", "0004", "4294967295", "", "+", "-1", " 5", "5 ", "4294967296", "12a", "٣"] {
        assert_eq!(parse_u32(s), s.parse::<u32>().ok(), "input {s:?}");
    }
}

#[test]
fn panel_size_needs_both_positive() {
    assert_eq!(panel_size_from_env(Some("1024"), Some("600")), Some((1024, 600)));
    assert_eq!(panel_size_from_env(Some("1024"), None), None);
    assert_eq!(panel_size_from_env(None, Some("600")), None);
    assert_eq!(panel_size_from_env(Some("0"), Some("600")), None);
    assert_eq!(panel_size_from_env(Some("wide"), Some("600")), None);
}

#[test]
fn fullscreen_flag_values() {
    assert!(fullscreen_requested(Some("1"), false));
    assert!(fullscreen_requested(Some("TRUE"), false));
    assert!(fullscreen_requested(Some("True"), false));
    assert!(!fullscreen_requested(Some("yes"), true));
    assert!(!fullscreen_requested(Some("0"), true));
    assert!(fullscreen_requested(None, true));
    assert!(!fullscreen_requested(None, false));
}

#[test]
fn virt_panel_on_desktop_is_left_alone() {
    let a = configure_window(DisplayConfig::virt_panel(), None, None, None, Some("1"));
    assert_eq!(a, WindowAction::Leave);
}

#[test]
fn virt_panel_pinned_on_request() {
    let a = configure_window(DisplayConfig::virt_panel(), Some("1"), None, None, None);
    assert_eq!(a, WindowAction::Pin(800, 480));
    let a = configure_window(DisplayConfig::virt_panel(), None, Some("1280"), Some("400"), None);
    assert_eq!(a, WindowAction::Pin(1280, 400));
}

#[test]
fn env_panel_size_wins_everywhere() {
    let a = configure_window(DisplayConfig::embedded(true), None, Some("640"), Some("480"), Some("1"));
    assert_eq!(a, WindowAction::Pin(640, 480));
}

#[test]
fn embedded_goes_fullscreen_by_default() {
    assert_eq!(
        configure_window(DisplayConfig::embedded(true), None, None, None, None),
        WindowAction::Fullscreen
    );
    assert_eq!(
        configure_window(DisplayConfig::embedded(true), None, None, None, Some("0")),
        WindowAction::Leave
    );
    assert_eq!(
        configure_window(DisplayConfig::desktop(), None, None, None, Some("true")),
        WindowAction::Fullscreen
    );
    assert_eq!(
        configure_window(DisplayConfig::desktop(), None, None, None, None),
        WindowAction::Leave
    );
}

#[test]
fn fixed_size_never_fullscreen() {
    let fixed = DisplayConfig { fixed_size: Some((800, 480)), default_kiosk: true };
    for pin in [None, Some("1"), Some("0")] {
        for fs in [None, Some("1"), Some("true")] {
            assert_ne!(configure_window(fixed, pin, None, None, fs), WindowAction::Fullscreen);
        }
    }
    assert_eq!(configure_window(fixed, None, None, None, Some("1")), WindowAction::Pin(800, 480));
}
