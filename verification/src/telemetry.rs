//! Telemetry readouts that do not depend on floating point.
use vstd::prelude::*;

use crate::text::{self, digit_text};

verus! {

/// Decimal digits of `n`, most significant first, no leading zeros.
pub open spec fn decimal(n: nat) -> Seq<char>
    decreases n,
{
    if n < 10 {
        seq![text::digit_char(n as int)]
    } else {
        decimal(n / 10).push(text::digit_char((n % 10) as int))
    }
}

/// Decimal text of `n`, with a leading `-` when negative.
pub open spec fn signed_decimal(n: int) -> Seq<char> {
    if n < 0 {
        seq!['-'] + decimal((-n) as nat)
    } else {
        decimal(n as nat)
    }
}

/// Gear indicator text: `N` in neutral, the gear number otherwise.
pub open spec fn spec_gear_label(gear: i8) -> Seq<char> {
    if gear == 0 {
        "N"@
    } else {
        signed_decimal(gear as int)
    }
}

/// Decimal text of `n` (`n < 1000`).
fn small_decimal(n: u32) -> (s: String)
    requires
        n < 1000,
    ensures
        s@ == decimal(n as nat),
{
    if n < 10 {
        digit_text(n as i32)
    } else if n < 100 {
        let mut s = digit_text((n / 10) as i32);
        let o = digit_text((n % 10) as i32);
        s.append(o.as_str());
        proof {
            assert(decimal(n as nat) == decimal((n / 10) as nat).push(text::digit_char((n % 10) as int)));
            assert(decimal((n / 10) as nat) == seq![text::digit_char((n / 10) as int)]);
            assert(s@ =~= decimal(n as nat));
        }
        s
    } else {
        let mut s = digit_text((n / 100) as i32);
        let t = digit_text(((n / 10) % 10) as i32);
        let o = digit_text((n % 10) as i32);
        s.append(t.as_str());
        s.append(o.as_str());
        proof {
            let m = (n / 10) as nat;
            assert(m / 10 == n / 100);
            assert(m % 10 == (n / 10) % 10);
            assert(decimal(m) == decimal(m / 10).push(text::digit_char((m % 10) as int)));
            assert(decimal(m / 10) == seq![text::digit_char((m / 10) as int)]);
            assert(decimal(n as nat) == decimal(m).push(text::digit_char((n % 10) as int)));
            assert(s@ =~= decimal(n as nat));
        }
        s
    }
}

/// Gear indicator text: `N` in neutral, the gear number otherwise.
pub fn gear_label(gear: i8) -> (s: String)
    ensures
        s@ == spec_gear_label(gear),
{
    if gear == 0 {
        "N".to_owned()
    } else if gear < 0 {
        let mag: u32 = (-(gear as i32)) as u32;
        let digits = small_decimal(mag);
        let mut s = "-".to_owned();
        proof {
            reveal_strlit("-");
        }
        s.append(digits.as_str());
        assert(s@ =~= signed_decimal(gear as int));
        s
    } else {
        small_decimal(gear as u32)
    }
}


/// A digit's character is an ASCII digit worth that digit.
pub proof fn lemma_digit_char_value(d: int)
    requires
        0 <= d <= 9,
    ensures
        text::is_ascii_digit(text::digit_char(d)),
        text::digit_value(text::digit_char(d)) == d,
        d > 0 ==> text::digit_char(d) != '0',
{
    assert(('0' as int) == 48);
    assert(((48 + d) as char) as int == 48 + d);
}

/// The decimal text of `n` is a run of ASCII digits without a leading zero
/// (`0` alone for zero) that reads back as `n`.
pub proof fn lemma_decimal_reads_back(n: nat)
    ensures
        decimal(n).len() >= 1,
        forall|i: int| 0 <= i < decimal(n).len() ==> text::is_ascii_digit(#[trigger] decimal(n)[i]),
        text::digits_value(decimal(n)) == n,
        n > 0 ==> decimal(n)[0] != '0',
        n == 0 ==> decimal(n) == seq!['0'],
    decreases n,
{
    if n < 10 {
        lemma_digit_char_value(n as int);
        let s = decimal(n);
        assert(s.drop_last() =~= Seq::<char>::empty());
        assert(text::digits_value(Seq::<char>::empty()) == 0);
        assert(text::digits_value(s) == text::digits_value(s.drop_last()) * 10 + text::digit_value(s.last()));
    } else {
        lemma_decimal_reads_back(n / 10);
        lemma_digit_char_value((n % 10) as int);
        let p = decimal(n / 10);
        let s = decimal(n);
        assert(s.drop_last() =~= p);
        assert(s[0] == p[0]);
        assert(s.last() == text::digit_char((n % 10) as int));
        assert(n == (n / 10) * 10 + n % 10);
        assert(text::digits_value(s) == text::digits_value(p) * 10 + text::digit_value(s.last()));
    }
}

/// The gear label is `N` exactly in neutral; otherwise it reads back as the
/// gear: the digits of a forward gear, `-` and the digits for reverse
/// numbers, never with a leading zero.
pub proof fn lemma_gear_label_reads_back(gear: i8)
    ensures
        gear == 0 ==> spec_gear_label(gear) == "N"@,
        gear > 0 ==> text::digits_value(spec_gear_label(gear)) == gear && spec_gear_label(gear)[0]
            != '0' && (forall|i: int|
            0 <= i < spec_gear_label(gear).len() ==> text::is_ascii_digit(
                #[trigger] spec_gear_label(gear)[i],
            )),
        gear < 0 ==> spec_gear_label(gear)[0] == '-' && text::digits_value(
            spec_gear_label(gear).drop_first(),
        ) == -gear,
        gear != 0 ==> spec_gear_label(gear) != "N"@,
{
    reveal_strlit("N");
    if gear > 0 {
        lemma_decimal_reads_back(gear as nat);
        assert(!text::is_ascii_digit('N'));
        assert(text::is_ascii_digit(spec_gear_label(gear)[0]));
    } else if gear < 0 {
        lemma_decimal_reads_back((-gear) as nat);
        let l = spec_gear_label(gear);
        assert(l.drop_first() =~= decimal((-gear) as nat));
        assert(l[0] == '-');
    }
}

} // verus!
