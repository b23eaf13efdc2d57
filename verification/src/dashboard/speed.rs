//! Speed readout digit helpers.
use vstd::prelude::*;

use crate::text::{self, digit_text};

verus! {

/// `v` clamped to `0..=999`.
pub open spec fn clamp_speed(v: int) -> int {
    if v < 0 {
        0
    } else if v > 999 {
        999
    } else {
        v
    }
}

/// Hundreds cell: the hundreds digit from 100 km/h on, blank below.
pub open spec fn hundreds_cell(speed: int) -> Seq<char> {
    let s = clamp_speed(speed);
    if s >= 100 {
        seq![text::digit_char(s / 100)]
    } else {
        Seq::empty()
    }
}

/// Tens cell: the tens digit from 10 km/h on, blank below.
pub open spec fn tens_cell(speed: int) -> Seq<char> {
    let s = clamp_speed(speed);
    if s >= 10 {
        seq![text::digit_char((s / 10) % 10)]
    } else {
        Seq::empty()
    }
}

/// Ones cell: always shown.
pub open spec fn ones_cell(speed: int) -> Seq<char> {
    seq![text::digit_char(clamp_speed(speed) % 10)]
}

/// Split speed into hundreds / tens / ones digit cells (right-aligned,
/// 0–999 km/h). Leading zeros are blank; the ones cell is always shown.
pub fn speed_digits(speed: i32) -> (cells: (String, String, String))
    ensures
        cells.0@ == hundreds_cell(speed as int),
        cells.1@ == tens_cell(speed as int),
        cells.2@ == ones_cell(speed as int),
{
    let s: i32 = if speed < 0 {
        0
    } else if speed > 999 {
        999
    } else {
        speed
    };
    let h = s / 100;
    let t = (s / 10) % 10;
    let o = s % 10;
    let hs = if s >= 100 {
        digit_text(h)
    } else {
        String::new()
    };
    let ts = if s >= 10 {
        digit_text(t)
    } else {
        String::new()
    };
    // Always render the ones column so 0–9 km/h and 0 at rest stay visible.
    let os = digit_text(o);
    (hs, ts, os)
}

/// The speed value and its three digit cells.
#[derive(Debug, Clone)]
pub struct SpeedReadout {
    pub speed: i32,
    pub hundreds: String,
    pub tens: String,
    pub ones: String,
}

/// What the speed readout shows for `speed`.
pub fn set_speed_readout(speed: i32) -> (r: SpeedReadout)
    ensures
        r.speed == speed,
        r.hundreds@ == hundreds_cell(speed as int),
        r.tens@ == tens_cell(speed as int),
        r.ones@ == ones_cell(speed as int),
{
    let (h, t, o) = speed_digits(speed);
    SpeedReadout { speed, hundreds: h, tens: t, ones: o }
}

/// The three cells spell the clamped speed without leading zeros: reading the
/// shown digits as a number gives back `clamp(speed, 0, 999)`.
pub proof fn lemma_cells_spell_speed(speed: int)
    ensures
        ({
            let s = clamp_speed(speed);
            let h = s / 100;
            let t = (s / 10) % 10;
            let o = s % 10;
            &&& 0 <= h <= 9 && 0 <= t <= 9 && 0 <= o <= 9
            &&& h * 100 + t * 10 + o == s
            &&& (hundreds_cell(speed).len() == 0 <==> s < 100)
            &&& (tens_cell(speed).len() == 0 <==> s < 10)
            &&& ones_cell(speed).len() == 1
        }),
{
    let s = clamp_speed(speed);
    assert(0 <= s <= 999);
    assert((s / 100) * 100 + ((s / 10) % 10) * 10 + s % 10 == s) by (nonlinear_arith)
        requires
            0 <= s <= 999,
    ;
}


/// Read left to right, the three cells show the speed clamped to 0–999 in
/// decimal with no leading zeros: the digits read back as that speed, and
/// the ones cell always holds exactly one digit.
pub proof fn lemma_cells_show_clamped_speed(speed: int)
    ensures
        hundreds_cell(speed) + tens_cell(speed) + ones_cell(speed) == crate::telemetry::decimal(
            clamp_speed(speed) as nat,
        ),
        text::digits_value(hundreds_cell(speed) + tens_cell(speed) + ones_cell(speed))
            == clamp_speed(speed),
        ones_cell(speed).len() == 1,
        speed <= 0 ==> hundreds_cell(speed) + tens_cell(speed) + ones_cell(speed) == seq!['0'],
{
    let s = clamp_speed(speed);
    let all = hundreds_cell(speed) + tens_cell(speed) + ones_cell(speed);
    let n = s as nat;
    if s < 10 {
        assert(all =~= crate::telemetry::decimal(n));
    } else if s < 100 {
        assert(crate::telemetry::decimal(n / 10) == seq![text::digit_char((n / 10) as int)]);
        assert(all =~= crate::telemetry::decimal(n));
    } else {
        let m = n / 10;
        assert(m / 10 == n / 100);
        assert(m % 10 == (n / 10) % 10);
        assert(crate::telemetry::decimal(m / 10) == seq![text::digit_char((m / 10) as int)]);
        assert(crate::telemetry::decimal(m) == crate::telemetry::decimal(m / 10).push(
            text::digit_char((m % 10) as int),
        ));
        assert(all =~= crate::telemetry::decimal(n));
    }
    crate::telemetry::lemma_decimal_reads_back(n);
}

} // verus!
