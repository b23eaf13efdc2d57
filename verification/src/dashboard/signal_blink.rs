//! Blink phase for the turn / hazard outer-ring indicators.
use vstd::prelude::*;

verus! {

/// Blink half-period of the turn / hazard indicators, in milliseconds.
pub const BLINK_MS: u64 = 350;

/// Whether the indicator is lit after one blink tick.
pub open spec fn spec_blink_tick(turn_left: bool, turn_right: bool, lit: bool) -> bool {
    if turn_left || turn_right {
        !lit
    } else {
        false
    }
}

/// One blink tick: while a turn signal (or both, for hazards) is on the lit
/// state toggles; otherwise the indicator is switched off.
pub fn blink_tick(turn_left: bool, turn_right: bool, lit: bool) -> (next: bool)
    ensures
        next == spec_blink_tick(turn_left, turn_right, lit),
{
    if turn_left || turn_right {
        !lit
    } else if lit {
        false
    } else {
        lit
    }
}

/// While signalling, the indicator alternates tick by tick and two ticks
/// restore it; with no signal on it goes dark at once and stays dark.
pub proof fn lemma_blink_alternates(turn_left: bool, turn_right: bool, lit: bool)
    ensures
        (turn_left || turn_right) ==> spec_blink_tick(turn_left, turn_right, lit) != lit,
        (turn_left || turn_right) ==> spec_blink_tick(
            turn_left,
            turn_right,
            spec_blink_tick(turn_left, turn_right, lit),
        ) == lit,
        !(turn_left || turn_right) ==> !spec_blink_tick(turn_left, turn_right, lit),
{
}

} // verus!
