//! Day / dusk / night display modes.
use vstd::prelude::*;

use crate::text::{self, chars_of, lower_range_eq, trim_bounds};

verus! {

/// Ambient display mode of the cluster.
#[derive(Clone, Copy, Debug, PartialEq, Eq, Structural)]
pub enum DisplayMode {
    Day,
    Dusk,
    Night,
}

/// The mode a setting string selects: surrounding white space is ignored and
/// letters compare case-insensitively; `dusk`/`twilight` select dusk,
/// `night`/`dark` select night, anything else selects day.
pub open spec fn spec_parse_mode(s: Seq<char>) -> DisplayMode {
    let l = text::ascii_lower_seq(text::trim(s));
    if l == "dusk"@ || l == "twilight"@ {
        DisplayMode::Dusk
    } else if l == "night"@ || l == "dark"@ {
        DisplayMode::Night
    } else {
        DisplayMode::Day
    }
}

/// The mode a legacy `SIGMA_UI_TONE` value selects: `stealth` is night,
/// `normal` is dusk (`bright` is day); other values read as mode names.
pub open spec fn spec_parse_tone(s: Seq<char>) -> DisplayMode {
    let l = text::ascii_lower_seq(text::trim(s));
    if l == "stealth"@ {
        DisplayMode::Night
    } else if l == "normal"@ {
        DisplayMode::Dusk
    } else {
        spec_parse_mode(s)
    }
}

/// Canonical lower-case name of a mode.
pub open spec fn spec_mode_name(m: DisplayMode) -> Seq<char> {
    match m {
        DisplayMode::Day => "day"@,
        DisplayMode::Dusk => "dusk"@,
        DisplayMode::Night => "night"@,
    }
}

/// The mode after `m` in the ambient cycle.
pub open spec fn spec_cycle(m: DisplayMode) -> DisplayMode {
    match m {
        DisplayMode::Day => DisplayMode::Dusk,
        DisplayMode::Dusk => DisplayMode::Night,
        DisplayMode::Night => DisplayMode::Day,
    }
}

impl DisplayMode {
    /// Parse a mode setting; unknown or empty settings mean day.
    pub fn parse(s: &str) -> (m: DisplayMode)
        ensures
            m == spec_parse_mode(s@),
    {
        let v = chars_of(s);
        let (i, j) = trim_bounds(&v);
        if lower_range_eq(&v, i, j, "dusk") || lower_range_eq(&v, i, j, "twilight") {
            DisplayMode::Dusk
        } else if lower_range_eq(&v, i, j, "night") || lower_range_eq(&v, i, j, "dark") {
            DisplayMode::Night
        } else {
            DisplayMode::Day
        }
    }

    /// Canonical lower-case name (`day`, `dusk`, `night`).
    pub fn as_str(self) -> (s: &'static str)
        ensures
            s@ == spec_mode_name(self),
    {
        match self {
            DisplayMode::Day => "day",
            DisplayMode::Dusk => "dusk",
            DisplayMode::Night => "night",
        }
    }

    /// Normal ambient cycle: day → dusk → night → day.
    pub fn cycle(self) -> (next: DisplayMode)
        ensures
            next == spec_cycle(self),
    {
        match self {
            DisplayMode::Day => DisplayMode::Dusk,
            DisplayMode::Dusk => DisplayMode::Night,
            DisplayMode::Night => DisplayMode::Day,
        }
    }
}

/// Parse a legacy `SIGMA_UI_TONE` value.
pub fn parse_tone(s: &str) -> (m: DisplayMode)
    ensures
        m == spec_parse_tone(s@),
{
    let v = chars_of(s);
    let (i, j) = trim_bounds(&v);
    if lower_range_eq(&v, i, j, "stealth") {
        DisplayMode::Night
    } else if lower_range_eq(&v, i, j, "normal") {
        DisplayMode::Dusk
    } else {
        DisplayMode::parse(s)
    }
}

/// The mode selected by the values of `SIGMA_DISPLAY_MODE` and `SIGMA_UI_TONE`
/// (`None` when a variable is unset): the first one set decides, the tone
/// with its legacy names; day when neither is set.
pub fn parse_mode_from_env(display_mode: Option<&str>, ui_tone: Option<&str>) -> (m: DisplayMode)
    ensures
        m == match display_mode {
            Some(v) => spec_parse_mode(v@),
            None => match ui_tone {
                Some(v) => spec_parse_tone(v@),
                None => DisplayMode::Day,
            },
        },
{
    match display_mode {
        Some(v) => DisplayMode::parse(v),
        None => match ui_tone {
            Some(v) => parse_tone(v),
            None => DisplayMode::Day,
        },
    }
}

/// A mode's canonical name parses back to that mode.
pub proof fn lemma_parse_mode_name(m: DisplayMode)
    ensures
        spec_parse_mode(spec_mode_name(m)) == m,
{
    reveal_strlit("day");
    reveal_strlit("dusk");
    reveal_strlit("night");
    reveal_strlit("twilight");
    reveal_strlit("dark");
    let s = spec_mode_name(m);
    assert(text::trim_start(s) == s);
    assert(text::trim_end(s) == s);
    assert(text::ascii_lower_seq(s) =~= s);
    assert("dusk"@[1] != "dark"@[1]);
    assert("night"@[0] != "day"@[0]);
    assert("night"@.len() != "dusk"@.len());
}

/// Three steps of the ambient cycle return to the starting mode.
pub proof fn lemma_cycle_period(m: DisplayMode)
    ensures
        spec_cycle(spec_cycle(spec_cycle(m))) == m,
        spec_cycle(m) != m,
{
}


/// How a setting reads does not depend on ASCII letter case.
pub proof fn lemma_parse_ignores_case(s: Seq<char>)
    ensures
        spec_parse_mode(text::ascii_lower_seq(s)) == spec_parse_mode(s),
        spec_parse_tone(text::ascii_lower_seq(s)) == spec_parse_tone(s),
{
    text::lemma_trim_lower_commute(s);
    text::lemma_lower_idempotent(text::trim(s));
}

/// How a setting reads does not depend on white space around it.
pub proof fn lemma_parse_ignores_surrounding_space(c: char, s: Seq<char>, d: char)
    requires
        text::is_white_space(c),
        text::is_white_space(d),
    ensures
        spec_parse_mode((seq![c] + s).push(d)) == spec_parse_mode(s),
        spec_parse_tone((seq![c] + s).push(d)) == spec_parse_tone(s),
{
    text::lemma_trim_trailing_space(seq![c] + s, d);
    text::lemma_trim_leading_space(c, s);
}

/// The documented names: `dusk`/`twilight` are dusk, `night`/`dark` are
/// night, `day`, `bright` and an empty setting are day; the legacy tones
/// `stealth`/`normal`/`bright` are night/dusk/day.
pub proof fn lemma_documented_names()
    ensures
        spec_parse_mode("dusk"@) == DisplayMode::Dusk,
        spec_parse_mode("twilight"@) == DisplayMode::Dusk,
        spec_parse_mode("night"@) == DisplayMode::Night,
        spec_parse_mode("dark"@) == DisplayMode::Night,
        spec_parse_mode("day"@) == DisplayMode::Day,
        spec_parse_mode("bright"@) == DisplayMode::Day,
        spec_parse_mode(Seq::empty()) == DisplayMode::Day,
        spec_parse_tone("stealth"@) == DisplayMode::Night,
        spec_parse_tone("normal"@) == DisplayMode::Dusk,
        spec_parse_tone("bright"@) == DisplayMode::Day,
{
    reveal_strlit("day");
    reveal_strlit("dusk");
    reveal_strlit("night");
    reveal_strlit("twilight");
    reveal_strlit("dark");
    reveal_strlit("bright");
    reveal_strlit("stealth");
    reveal_strlit("normal");
    let names = seq!["day"@, "dusk"@, "night"@, "twilight"@, "dark"@, "bright"@, "stealth"@, "normal"@];
    assert forall|k: int| 0 <= k < names.len() implies text::trim(#[trigger] names[k]) == names[k]
        && text::ascii_lower_seq(names[k]) == names[k] by {
        let w = names[k];
        assert(text::trim_start(w) == w);
        assert(text::trim_end(w) == w);
        assert(text::ascii_lower_seq(w) =~= w);
    }
    assert(names[0] == "day"@);
    assert(names[1] == "dusk"@);
    assert(names[2] == "night"@);
    assert(names[3] == "twilight"@);
    assert(names[4] == "dark"@);
    assert(names[5] == "bright"@);
    assert(names[6] == "stealth"@);
    assert(names[7] == "normal"@);
    assert(text::ascii_lower_seq(text::trim(Seq::<char>::empty())) =~= Seq::<char>::empty());
    assert("dusk"@[1] != "dark"@[1]);
    assert("night"@[0] != "day"@[0]);
    assert("stealth"@[0] != "normal"@[0]);
    assert("bright"@[0] != "dusk"@[0]);
    assert("bright"@[0] != "dark"@[0]);
    assert("bright"@.len() != "twilight"@.len());
    assert("bright"@.len() != "night"@.len());
    assert("bright"@[0] != "stealth"@[0]);
    assert("bright"@[0] != "normal"@[0]);
    assert("night"@[0] != "stealth"@[0]);
    assert("dusk"@.len() != "stealth"@.len() && "dusk"@.len() != "normal"@.len());
    assert("twilight"@.len() != "stealth"@.len() && "twilight"@.len() != "normal"@.len());
    assert("dark"@.len() != "stealth"@.len() && "dark"@.len() != "normal"@.len());
    assert("night"@.len() != "stealth"@.len() && "night"@[1] != "normal"@[1]);
}

/// The ambient cycle goes day → dusk → night → day.
pub proof fn lemma_cycle_order(m: DisplayMode)
    ensures
        m == DisplayMode::Day ==> spec_cycle(m) == DisplayMode::Dusk,
        m == DisplayMode::Dusk ==> spec_cycle(m) == DisplayMode::Night,
        m == DisplayMode::Night ==> spec_cycle(m) == DisplayMode::Day,
{
}

} // verus!
