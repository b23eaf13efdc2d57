use sigma_instrumentation::{parse_mode_from_env, DisplayMode};

#[test]
fn parse_known_names_and_aliases() {
    assert_eq!(DisplayMode::parse("day"), DisplayMode::Day);
    assert_eq!(DisplayMode::parse("dusk"), DisplayMode::Dusk);
    assert_eq!(DisplayMode::parse("twilight"), DisplayMode::Dusk);
    assert_eq!(DisplayMode::parse("night"), DisplayMode::Night);
    assert_eq!(DisplayMode::parse("dark"), DisplayMode::Night);
}

#[test]
fn parse_ignores_case_and_surrounding_space() {
    assert_eq!(DisplayMode::parse("  NIGHT\n"), DisplayMode::Night);
    assert_eq!(DisplayMode::parse("\tDuSk "), DisplayMode::Dusk);
    assert_eq!(DisplayMode::parse("\u{3000}Dark\u{a0}"), DisplayMode::Night);
}

#[test]
fn parse_unknown_means_day() {
    assert_eq!(DisplayMode::parse(""), DisplayMode::Day);
    assert_eq!(DisplayMode::parse("bright"), DisplayMode::Day);
    assert_eq!(DisplayMode::parse("nigh t"), DisplayMode::Day);
    assert_eq!(DisplayMode::parse("nightx"), DisplayMode::Day);
}

#[test]
fn names_round_trip() {
    for m in [DisplayMode::Day, DisplayMode::Dusk, DisplayMode::Night] {
        assert_eq!(DisplayMode::parse(m.as_str()), m);
    }
    assert_eq!(DisplayMode::Day.as_str(), "day");
    assert_eq!(DisplayMode::Dusk.as_str(), "dusk");
    assert_eq!(DisplayMode::Night.as_str(), "night");
}

#[test]
fn cycle_order_and_period() {
    assert_eq!(DisplayMode::Day.cycle(), DisplayMode::Dusk);
    assert_eq!(DisplayMode::Dusk.cycle(), DisplayMode::Night);
    assert_eq!(DisplayMode::Night.cycle(), DisplayMode::Day);
    for m in [DisplayMode::Day, DisplayMode::Dusk, DisplayMode::Night] {
        assert_eq!(m.cycle().cycle().cycle(), m);
    }
}

#[test]
fn env_prefers_display_mode_over_tone() {
    assert_eq!(parse_mode_from_env(Some("dusk"), Some("dark")), DisplayMode::Dusk);
    assert_eq!(parse_mode_from_env(None, Some("dark")), DisplayMode::Night);
    assert_eq!(parse_mode_from_env(None, None), DisplayMode::Day);
    assert_eq!(parse_mode_from_env(Some(""), Some("night")), DisplayMode::Day);
}

#[test]
fn legacy_tone_names() {
    assert_eq!(parse_mode_from_env(None, Some("stealth")), DisplayMode::Night);
    assert_eq!(parse_mode_from_env(None, Some("normal")), DisplayMode::Dusk);
    assert_eq!(parse_mode_from_env(None, Some("bright")), DisplayMode::Day);
    assert_eq!(parse_mode_from_env(None, Some(" Stealth ")), DisplayMode::Night);
    assert_eq!(parse_mode_from_env(None, Some("twilight")), DisplayMode::Dusk);
}
