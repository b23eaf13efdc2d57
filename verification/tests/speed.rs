use sigma_instrumentation::dashboard::speed_digits;
use sigma_instrumentation::set_speed_readout;

#[test]
fn zero_shows_in_ones_column() {
    let (h, t, o) = speed_digits(0);
    assert_eq!(h.as_str(), "");
    assert_eq!(t.as_str(), "");
    assert_eq!(o.as_str(), "0");
}

#[test]
fn single_digit_speed() {
    let (h, t, o) = speed_digits(7);
    assert_eq!(h.as_str(), "");
    assert_eq!(t.as_str(), "");
    assert_eq!(o.as_str(), "7");
}

#[test]
fn three_digit_speed() {
    let (h, t, o) = speed_digits(235);
    assert_eq!(h.as_str(), "2");
    assert_eq!(t.as_str(), "3");
    assert_eq!(o.as_str(), "5");
}

#[test]
fn two_digit_speed_blanks_hundreds() {
    let (h, t, o) = speed_digits(42);
    assert_eq!(h.as_str(), "");
    assert_eq!(t.as_str(), "4");
    assert_eq!(o.as_str(), "2");
}

#[test]
fn interior_zero_digits_are_shown() {
    let (h, t, o) = speed_digits(100);
    assert_eq!((h.as_str(), t.as_str(), o.as_str()), ("1", "0", "0"));
    let (h, t, o) = speed_digits(10);
    assert_eq!((h.as_str(), t.as_str(), o.as_str()), ("", "1", "0"));
}

#[test]
fn negative_speed_clamps_to_zero() {
    let (h, t, o) = speed_digits(-12);
    assert_eq!((h.as_str(), t.as_str(), o.as_str()), ("", "", "0"));
    let (h, t, o) = speed_digits(i32::MIN);
    assert_eq!((h.as_str(), t.as_str(), o.as_str()), ("", "", "0"));
}

#[test]
fn speed_above_range_clamps_to_999() {
    let (h, t, o) = speed_digits(1234);
    assert_eq!((h.as_str(), t.as_str(), o.as_str()), ("9", "9", "9"));
    let (h, t, o) = speed_digits(i32::MAX);
    assert_eq!((h.as_str(), t.as_str(), o.as_str()), ("9", "9", "9"));
}

#[test]
fn digits_spell_every_speed() {
    for speed in 0..1000 {
        let (h, t, o) = speed_digits(speed);
        let shown = format!("{h}{t}{o}");
        assert_eq!(shown, speed.to_string());
    }
}

#[test]
fn readout_keeps_raw_speed_and_clamped_digits() {
    let r = set_speed_readout(1500);
    assert_eq!(r.speed, 1500);
    assert_eq!(
        (r.hundreds.as_str(), r.tens.as_str(), r.ones.as_str()),
        ("9", "9", "9")
    );
    let r = set_speed_readout(88);
    assert_eq!(r.speed, 88);
    assert_eq!((r.hundreds.as_str(), r.tens.as_str(), r.ones.as_str()), ("", "8", "8"));
}
