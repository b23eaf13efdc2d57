use sigma_instrumentation::dashboard::BLINK_MS;
use sigma_instrumentation::{blink_tick, gear_label, ChannelRelease, DemoPhase, UpdatesConfig};

#[test]
fn gear_labels() {
    assert_eq!(gear_label(0), "N");
    assert_eq!(gear_label(1), "1");
    assert_eq!(gear_label(6), "6");
    assert_eq!(gear_label(12), "12");
    assert_eq!(gear_label(-1), "-1");
    for g in i8::MIN..=i8::MAX {
        if g != 0 {
            assert_eq!(gear_label(g), g.to_string());
        }
    }
}

#[test]
fn updates_defaults() {
    let c = UpdatesConfig::from_env(None, None, None);
    assert_eq!(c.base_url, "http://updates.sigma.localtest.me:30080");
    assert_eq!(c.channel, "dev");
    assert_eq!(c.current_version, "0.0.0");
    assert_eq!(
        c.latest_url(),
        "http://updates.sigma.localtest.me:30080/v1/channel/dev/latest"
    );
}

#[test]
fn updates_trims_trailing_slashes() {
    let c = UpdatesConfig::from_env(Some("https://cat.example///"), Some("stable"), Some("1.2.3"));
    assert_eq!(c.base_url, "https://cat.example");
    assert_eq!(c.channel, "stable");
    assert_eq!(c.current_version, "1.2.3");
    assert_eq!(c.latest_url(), "https://cat.example/v1/channel/stable/latest");
    let only = UpdatesConfig::from_env(Some("///"), None, None);
    assert_eq!(only.base_url, "");
}

#[test]
fn channel_release_holds_catalog_fields() {
    let r = ChannelRelease {
        channel: "dev".to_string(),
        version: "0.4.1".to_string(),
        notes: String::new(),
        install: String::new(),
        bundle_url: String::new(),
    };
    assert_eq!(r.clone().version, "0.4.1");
}

#[test]
fn demo_phases_cycle() {
    let mut p = DemoPhase::Launch;
    let order = [
        DemoPhase::AccelRun,
        DemoPhase::TopSpeedHold,
        DemoPhase::DecelRun,
        DemoPhase::Settle,
        DemoPhase::Launch,
    ];
    for want in order {
        p = p.next();
        assert_eq!(p, want);
    }
}

#[test]
fn blink_toggles_while_signalling() {
    assert_eq!(BLINK_MS, 350);
    assert!(blink_tick(true, false, false));
    assert!(!blink_tick(true, false, true));
    assert!(blink_tick(true, true, false));
    assert!(!blink_tick(false, false, true));
    assert!(!blink_tick(false, false, false));
}
