//! Window size and fullscreen policy.
//!
//! The environment is read by the caller; these functions decide from the
//! values of the variables (`None` for a variable that is unset).
use vstd::prelude::*;

use super::config::DisplayConfig;
use crate::text::{self, eq_ignore_ascii_case, parse_u32, str_eq};

verus! {

/// What to do with the dashboard window.
#[derive(Clone, Copy, Debug, PartialEq, Eq, Structural)]
pub enum WindowAction {
    /// Leave the window at its preferred size.
    Leave,
    /// Pin the window to this logical size.
    Pin(u32, u32),
    /// Go fullscreen at the origin.
    Fullscreen,
}

/// The characters of an optional string.
pub open spec fn opt_chars(o: Option<&str>) -> Option<Seq<char>> {
    match o {
        Some(s) => Some(s@),
        None => None,
    }
}

/// Panel size from the values of `SIGMA_PANEL_WIDTH` / `SIGMA_PANEL_HEIGHT`:
/// both set, both decimal `u32`s, both positive.
pub open spec fn spec_panel_size(w: Option<Seq<char>>, h: Option<Seq<char>>) -> Option<(u32, u32)> {
    match (w, h) {
        (Some(ws), Some(hs)) => match (text::spec_parse_u32(ws), text::spec_parse_u32(hs)) {
            (Some(a), Some(b)) => if a > 0 && b > 0 {
                Some((a, b))
            } else {
                None
            },
            _ => None,
        },
        _ => None,
    }
}

/// Whether `SLINT_FULLSCREEN` asks for fullscreen: `1` or `true` (any ASCII
/// case) when set, `default` when unset.
pub open spec fn spec_fullscreen_requested(v: Option<Seq<char>>, default: bool) -> bool {
    match v {
        Some(s) => s == "1"@ || text::ascii_lower_seq(s) == text::ascii_lower_seq("true"@),
        None => default,
    }
}

/// The window policy for `config` and the environment values.
pub open spec fn spec_configure_window(
    config: DisplayConfig,
    pin_window: Option<Seq<char>>,
    panel_width: Option<Seq<char>>,
    panel_height: Option<Seq<char>>,
    fullscreen: Option<Seq<char>>,
) -> WindowAction {
    let panel = spec_panel_size(panel_width, panel_height);
    if config.fixed_size is Some && pin_window != Some("1"@) && panel is None
        && !config.default_kiosk {
        WindowAction::Leave
    } else if let Some((w, h)) = panel {
        WindowAction::Pin(w, h)
    } else if let Some((w, h)) = config.fixed_size {
        WindowAction::Pin(w, h)
    } else if spec_fullscreen_requested(fullscreen, config.default_kiosk) {
        WindowAction::Fullscreen
    } else {
        WindowAction::Leave
    }
}

/// Panel size from the values of `SIGMA_PANEL_WIDTH` / `SIGMA_PANEL_HEIGHT`.
pub fn panel_size_from_env(width: Option<&str>, height: Option<&str>) -> (r: Option<(u32, u32)>)
    ensures
        r == spec_panel_size(opt_chars(width), opt_chars(height)),
{
    let w = match width {
        Some(s) => s,
        None => return None,
    };
    let h = match height {
        Some(s) => s,
        None => return None,
    };
    let w = match parse_u32(w) {
        Some(n) => n,
        None => return None,
    };
    let h = match parse_u32(h) {
        Some(n) => n,
        None => return None,
    };
    if w > 0 && h > 0 {
        Some((w, h))
    } else {
        None
    }
}

/// Whether the value of `SLINT_FULLSCREEN` asks for fullscreen.
pub fn fullscreen_requested(value: Option<&str>, default: bool) -> (r: bool)
    ensures
        r == spec_fullscreen_requested(opt_chars(value), default),
{
    match value {
        Some(v) => str_eq(v, "1") || eq_ignore_ascii_case(v, "true"),
        None => default,
    }
}

/// Window size / fullscreen policy from `config` and the values of
/// `SIGMA_PIN_WINDOW`, `SIGMA_PANEL_WIDTH`, `SIGMA_PANEL_HEIGHT` and
/// `SLINT_FULLSCREEN`.
pub fn configure_window(
    config: DisplayConfig,
    pin_window: Option<&str>,
    panel_width: Option<&str>,
    panel_height: Option<&str>,
    fullscreen: Option<&str>,
) -> (a: WindowAction)
    ensures
        a == spec_configure_window(
            config,
            opt_chars(pin_window),
            opt_chars(panel_width),
            opt_chars(panel_height),
            opt_chars(fullscreen),
        ),
{
    let pinned = match pin_window {
        Some(v) => str_eq(v, "1"),
        None => false,
    };
    let panel = panel_size_from_env(panel_width, panel_height);
    // Desktop testbed: let the preferred size drive the window.
    if config.fixed_size.is_some() && !pinned && panel.is_none() && !config.default_kiosk {
        return WindowAction::Leave;
    }
    match panel {
        Some((w, h)) => return WindowAction::Pin(w, h),
        None => {},
    }
    match config.fixed_size {
        Some((w, h)) => return WindowAction::Pin(w, h),
        None => {},
    }
    if fullscreen_requested(fullscreen, config.default_kiosk) {
        WindowAction::Fullscreen
    } else {
        WindowAction::Leave
    }
}

/// A fixed window size rules out fullscreen: with `fixed_size` set the window
/// is either left alone or pinned.
pub proof fn lemma_fixed_size_skips_fullscreen(
    config: DisplayConfig,
    pin_window: Option<Seq<char>>,
    panel_width: Option<Seq<char>>,
    panel_height: Option<Seq<char>>,
    fullscreen: Option<Seq<char>>,
)
    requires
        config.fixed_size is Some,
    ensures
        spec_configure_window(config, pin_window, panel_width, panel_height, fullscreen)
            != WindowAction::Fullscreen,
{
}

/// A pinned size is never zero in either dimension when it came from the
/// environment or from a non-zero preset.
pub proof fn lemma_pinned_size_positive(
    config: DisplayConfig,
    pin_window: Option<Seq<char>>,
    panel_width: Option<Seq<char>>,
    panel_height: Option<Seq<char>>,
    fullscreen: Option<Seq<char>>,
)
    requires
        config.fixed_size matches Some(sz) ==> sz.0 > 0 && sz.1 > 0,
    ensures
        spec_configure_window(config, pin_window, panel_width, panel_height, fullscreen) matches WindowAction::Pin(w, h) ==> w > 0 && h > 0,
{
}


/// On a windowed preset with a fixed size (the desktop virtual panel) and no
/// valid panel size in the environment, the window is pinned to the preset
/// size only when `SIGMA_PIN_WINDOW` is exactly `1`, and left alone
/// otherwise — whatever `SLINT_FULLSCREEN` says.
pub proof fn lemma_fixed_panel_pins_only_on_request(
    config: DisplayConfig,
    pin_window: Option<Seq<char>>,
    panel_width: Option<Seq<char>>,
    panel_height: Option<Seq<char>>,
    fullscreen: Option<Seq<char>>,
)
    requires
        config.fixed_size is Some,
        !config.default_kiosk,
        spec_panel_size(panel_width, panel_height) is None,
    ensures
        pin_window != Some("1"@) ==> spec_configure_window(
            config,
            pin_window,
            panel_width,
            panel_height,
            fullscreen,
        ) == WindowAction::Leave,
        pin_window == Some("1"@) ==> (config.fixed_size matches Some((fw, fh))
            && spec_configure_window(config, pin_window, panel_width, panel_height, fullscreen)
            == WindowAction::Pin(fw, fh)),
{
}

/// A valid panel size from the environment pins the window to that size,
/// whatever the preset and the other variables say.
pub proof fn lemma_env_panel_size_wins(
    config: DisplayConfig,
    pin_window: Option<Seq<char>>,
    w: Seq<char>,
    h: Seq<char>,
    fullscreen: Option<Seq<char>>,
)
    requires
        text::spec_parse_u32(w) matches Some(a) && a > 0,
        text::spec_parse_u32(h) matches Some(b) && b > 0,
    ensures
        spec_configure_window(config, pin_window, Some(w), Some(h), fullscreen) == WindowAction::Pin(
            text::spec_parse_u32(w)->0,
            text::spec_parse_u32(h)->0,
        ),
{
}

/// Without a fixed size or an environment panel size, the window goes
/// fullscreen exactly when `SLINT_FULLSCREEN` asks for it (the preset's
/// kiosk default when unset), and is left alone otherwise.
pub proof fn lemma_unsized_fullscreen_policy(
    config: DisplayConfig,
    pin_window: Option<Seq<char>>,
    panel_width: Option<Seq<char>>,
    panel_height: Option<Seq<char>>,
    fullscreen: Option<Seq<char>>,
)
    requires
        config.fixed_size is None,
        spec_panel_size(panel_width, panel_height) is None,
    ensures
        fullscreen is None ==> (spec_configure_window(
            config,
            pin_window,
            panel_width,
            panel_height,
            fullscreen,
        ) == WindowAction::Fullscreen <==> config.default_kiosk),
        fullscreen == Some("1"@) ==> spec_configure_window(
            config,
            pin_window,
            panel_width,
            panel_height,
            fullscreen,
        ) == WindowAction::Fullscreen,
        spec_configure_window(config, pin_window, panel_width, panel_height, fullscreen) != WindowAction::Fullscreen
            ==> spec_configure_window(config, pin_window, panel_width, panel_height, fullscreen)
            == WindowAction::Leave,
{
}

/// A kiosk preset with a fixed size pins the window to it when the
/// environment gives no panel size.
pub proof fn lemma_fixed_kiosk_pins(
    config: DisplayConfig,
    pin_window: Option<Seq<char>>,
    panel_width: Option<Seq<char>>,
    panel_height: Option<Seq<char>>,
    fullscreen: Option<Seq<char>>,
)
    requires
        config.fixed_size is Some,
        config.default_kiosk,
        spec_panel_size(panel_width, panel_height) is None,
    ensures
        config.fixed_size matches Some((fw, fh)) && spec_configure_window(
            config,
            pin_window,
            panel_width,
            panel_height,
            fullscreen,
        ) == WindowAction::Pin(fw, fh),
{
}

/// The panel size is present exactly when both variables hold positive
/// decimal `u32`s, and then it is those two numbers.
pub proof fn lemma_panel_size_values(w: Option<Seq<char>>, h: Option<Seq<char>>)
    ensures
        spec_panel_size(w, h) is Some <==> (w matches Some(ws) && h matches Some(hs)
            && text::spec_parse_u32(ws) matches Some(a) && text::spec_parse_u32(hs) matches Some(b)
            && a > 0 && b > 0),
        spec_panel_size(w, h) matches Some(sz) ==> (Some(sz.0) == text::spec_parse_u32(w->0)
            && Some(sz.1) == text::spec_parse_u32(h->0)),
{
}

/// `SLINT_FULLSCREEN`: unset means the default; `1`, `true`, `TRUE` ask for
/// fullscreen; `0` and the empty value never do.
pub proof fn lemma_fullscreen_values(default: bool)
    ensures
        spec_fullscreen_requested(None, default) == default,
        spec_fullscreen_requested(Some("1"@), default),
        spec_fullscreen_requested(Some("true"@), default),
        spec_fullscreen_requested(Some("TRUE"@), default),
        !spec_fullscreen_requested(Some("0"@), default),
        !spec_fullscreen_requested(Some(""@), default),
{
    reveal_strlit("1");
    reveal_strlit("0");
    reveal_strlit("");
    reveal_strlit("true");
    reveal_strlit("TRUE");
    assert(text::ascii_lower_seq("TRUE"@) =~= text::ascii_lower_seq("true"@));
    assert(text::ascii_lower_seq("true"@) =~= "true"@);
    assert(text::ascii_lower_seq("0"@) =~= "0"@);
    assert(text::ascii_lower_seq(""@) =~= ""@);
    assert("0"@ != "1"@) by {
        assert("0"@[0] != "1"@[0]);
    }
    assert(text::ascii_lower_seq("0"@).len() != text::ascii_lower_seq("true"@).len());
    assert(text::ascii_lower_seq(""@).len() != text::ascii_lower_seq("true"@).len());
}


/// A set `SLINT_FULLSCREEN` decides on its own (the default no longer
/// matters), and only `1` or a four-letter case variant of `true` ask for
/// fullscreen.
pub proof fn lemma_fullscreen_only_one_or_true(v: Seq<char>, default: bool)
    ensures
        spec_fullscreen_requested(Some(v), default) == spec_fullscreen_requested(Some(v), !default),
        spec_fullscreen_requested(Some(v), default) ==> (v == "1"@ || (v.len() == 4
            && text::ascii_lower_seq(v) == "true"@)),
{
    reveal_strlit("true");
    assert(text::ascii_lower_seq("true"@) =~= "true"@);
}

} // verus!
