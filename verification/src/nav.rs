//! Window navigation for the ride screen.
//!
//! Windows are numbered `0 .. count`; windows `0 ..= panel_max` are the
//! left-panel windows, the others are full-screen windows that only open
//! while the bike is stopped. Window 0 is home.
use vstd::prelude::*;

verus! {

/// `v` clamped to `lo..=hi`.
pub open spec fn clamp(v: int, lo: int, hi: int) -> int {
    if v < lo {
        lo
    } else if v > hi {
        hi
    } else {
        v
    }
}

/// Window after Next: cycles over all windows when stopped, over the
/// left-panel windows while moving (a full-screen window counts as the last
/// panel window).
pub open spec fn spec_nav_next(cur: i32, stopped: bool, count: i32, panel_max: i32) -> int {
    if stopped {
        (cur + 1) % (count as int)
    } else {
        (clamp(cur as int, 0, panel_max as int) + 1) % (panel_max + 1)
    }
}

/// Window after Previous, cycling like [`spec_nav_next`] in reverse.
pub open spec fn spec_nav_prev(cur: i32, stopped: bool, count: i32, panel_max: i32) -> int {
    if stopped {
        (cur - 1) % (count as int)
    } else {
        (clamp(cur as int, 0, panel_max as int) - 1) % (panel_max + 1)
    }
}

/// Inputs on which Next runs without overflow and with a non-empty window
/// range.
pub open spec fn nav_next_defined(cur: i32, stopped: bool, count: i32, panel_max: i32) -> bool {
    if stopped {
        count > 0 && cur < i32::MAX
    } else {
        0 <= panel_max < i32::MAX
    }
}

/// Inputs on which Previous runs without overflow and with a non-empty
/// window range.
pub open spec fn nav_prev_defined(cur: i32, stopped: bool, count: i32, panel_max: i32) -> bool {
    if stopped {
        count > 0 && cur > i32::MIN
    } else {
        0 <= panel_max < i32::MAX
    }
}

/// What a direct window selection does.
#[derive(Debug, Clone, Copy, PartialEq, Eq, Structural)]
pub enum WindowSelect {
    /// The index names no window; nothing changes.
    Ignored,
    /// A full-screen window was asked for while moving; nothing changes and
    /// the rider is told why.
    Blocked,
    /// Switch to this window.
    Open(i32),
}

/// The outcome of selecting window `idx`.
pub open spec fn spec_nav_select(idx: i32, stopped: bool, count: i32, panel_max: i32) -> WindowSelect {
    if !(0 <= idx < count) {
        WindowSelect::Ignored
    } else if idx > panel_max && !stopped {
        WindowSelect::Blocked
    } else {
        WindowSelect::Open(idx)
    }
}

/// The window kept after a tick: a full-screen window closes to home once
/// the bike moves.
pub open spec fn spec_close_if_moving(cur: i32, stopped: bool, panel_max: i32) -> i32 {
    if !stopped && cur > panel_max {
        0
    } else {
        cur
    }
}

/// `x.rem_euclid(m)` for a positive `m`.
fn rem_euclid(x: i32, m: i32) -> (r: i32)
    requires
        m > 0,
    ensures
        r == x as int % m as int,
{
    if x >= 0 {
        let r = ((x as u32) % (m as u32)) as i32;
        r
    } else {
        let y: u64 = (-(x as i64)) as u64;
        let r: u64 = y % (m as u64);
        proof {
            let yi = y as int;
            let mi = m as int;
            vstd::arithmetic::div_mod::lemma_fundamental_div_mod(yi, mi);
            let q = yi / mi;
            assert(yi == mi * q + r as int);
            assert(mi * q == q * mi) by (nonlinear_arith);
            if r == 0 {
                assert((-q) * mi == -(q * mi)) by (nonlinear_arith);
                vstd::arithmetic::div_mod::lemma_fundamental_div_mod_converse(
                    x as int,
                    mi,
                    -q,
                    0,
                );
            } else {
                assert((-q - 1) * mi == -(q * mi) - mi) by (nonlinear_arith);
                vstd::arithmetic::div_mod::lemma_fundamental_div_mod_converse(
                    x as int,
                    mi,
                    -q - 1,
                    mi - r as int,
                );
            }
        }
        if r == 0 {
            0
        } else {
            (m as u64 - r) as i32
        }
    }
}

/// Next window (Right / face button).
pub fn nav_next(cur: i32, stopped: bool, count: i32, panel_max: i32) -> (w: i32)
    requires
        nav_next_defined(cur, stopped, count, panel_max),
    ensures
        w == spec_nav_next(cur, stopped, count, panel_max),
{
    if stopped {
        rem_euclid(cur + 1, count)
    } else {
        let c = if cur < 0 {
            0
        } else if cur > panel_max {
            panel_max
        } else {
            cur
        };
        rem_euclid(c + 1, panel_max + 1)
    }
}

/// Previous window (Left / face button).
pub fn nav_prev(cur: i32, stopped: bool, count: i32, panel_max: i32) -> (w: i32)
    requires
        nav_prev_defined(cur, stopped, count, panel_max),
    ensures
        w == spec_nav_prev(cur, stopped, count, panel_max),
{
    if stopped {
        rem_euclid(cur - 1, count)
    } else {
        let c = if cur < 0 {
            0
        } else if cur > panel_max {
            panel_max
        } else {
            cur
        };
        rem_euclid(c - 1, panel_max + 1)
    }
}

/// Direct selection of window `idx` (number keys).
pub fn nav_select(idx: i32, stopped: bool, count: i32, panel_max: i32) -> (s: WindowSelect)
    ensures
        s == spec_nav_select(idx, stopped, count, panel_max),
{
    if !(0 <= idx && idx < count) {
        WindowSelect::Ignored
    } else if idx > panel_max && !stopped {
        WindowSelect::Blocked
    } else {
        WindowSelect::Open(idx)
    }
}

/// The window to show after a simulation tick.
pub fn close_if_moving(cur: i32, stopped: bool, panel_max: i32) -> (w: i32)
    ensures
        w == spec_close_if_moving(cur, stopped, panel_max),
{
    if !stopped && cur > panel_max {
        0
    } else {
        cur
    }
}

/// A well-formed window layout: at least one panel window, and every panel
/// window is a window.
pub open spec fn layout_ok(count: i32, panel_max: i32) -> bool {
    0 <= panel_max < count
}

/// Next and Previous only ever land on windows, and never on a full-screen
/// window while the bike is moving.
pub proof fn lemma_nav_stays_in_range(cur: i32, stopped: bool, count: i32, panel_max: i32)
    requires
        layout_ok(count, panel_max),
    ensures
        0 <= spec_nav_next(cur, stopped, count, panel_max) < count,
        0 <= spec_nav_prev(cur, stopped, count, panel_max) < count,
        !stopped ==> spec_nav_next(cur, stopped, count, panel_max) <= panel_max,
        !stopped ==> spec_nav_prev(cur, stopped, count, panel_max) <= panel_max,
{
}

/// Previous undoes Next, and Next undoes Previous, on every window the
/// rider can be on: any window when stopped, a panel window while moving.
pub proof fn lemma_nav_prev_undoes_next(cur: i32, stopped: bool, count: i32, panel_max: i32)
    requires
        layout_ok(count, panel_max),
        0 <= cur < count,
        !stopped ==> cur <= panel_max,
    ensures
        spec_nav_prev(spec_nav_next(cur, stopped, count, panel_max) as i32, stopped, count, panel_max)
            == cur,
        spec_nav_next(spec_nav_prev(cur, stopped, count, panel_max) as i32, stopped, count, panel_max)
            == cur,
{
    let m: int = if stopped {
        count as int
    } else {
        panel_max + 1
    };
    let c = cur as int;
    assert(0 <= c < m);
    // Next then Previous.
    if c + 1 < m {
        vstd::arithmetic::div_mod::lemma_small_mod((c + 1) as nat, m as nat);
    } else {
        vstd::arithmetic::div_mod::lemma_fundamental_div_mod_converse(c + 1, m, 1, 0);
    }
    let n = (c + 1) % m;
    assert(0 <= n < m);
    if n == 0 {
        vstd::arithmetic::div_mod::lemma_fundamental_div_mod_converse(n - 1, m, -1, m - 1);
    } else {
        vstd::arithmetic::div_mod::lemma_small_mod((n - 1) as nat, m as nat);
    }
    // Previous then Next.
    if c >= 1 {
        vstd::arithmetic::div_mod::lemma_small_mod((c - 1) as nat, m as nat);
    } else {
        vstd::arithmetic::div_mod::lemma_fundamental_div_mod_converse(c - 1, m, -1, m - 1);
    }
    let p = (c - 1) % m;
    assert(0 <= p < m);
    if p + 1 < m {
        vstd::arithmetic::div_mod::lemma_small_mod((p + 1) as nat, m as nat);
    } else {
        vstd::arithmetic::div_mod::lemma_fundamental_div_mod_converse(p + 1, m, 1, 0);
    }
}

/// A direct selection never opens a full-screen window while moving, and
/// only ever opens a window that exists.
pub proof fn lemma_select_respects_motion(idx: i32, stopped: bool, count: i32, panel_max: i32)
    ensures
        spec_nav_select(idx, stopped, count, panel_max) matches WindowSelect::Open(w) ==> (0 <= w
            < count && (!stopped ==> w <= panel_max)),
{
}

/// After a tick, a moving bike shows a panel window whenever it showed a
/// window.
pub proof fn lemma_moving_shows_panel(cur: i32, panel_max: i32)
    requires
        0 <= cur,
    ensures
        0 <= spec_close_if_moving(cur, false, panel_max) <= if panel_max < 0 {
            0
        } else {
            panel_max as int
        },
{
}


/// Next moves to the following window and wraps from the last one to home:
/// over all windows when stopped, over the panel windows while moving (from
/// a full-screen window it wraps to home too).
pub proof fn lemma_next_steps_forward(cur: i32, stopped: bool, count: i32, panel_max: i32)
    requires
        layout_ok(count, panel_max),
        0 <= cur < count,
    ensures
        stopped && cur + 1 < count ==> spec_nav_next(cur, stopped, count, panel_max) == cur + 1,
        stopped && cur + 1 == count ==> spec_nav_next(cur, stopped, count, panel_max) == 0,
        !stopped && cur < panel_max ==> spec_nav_next(cur, stopped, count, panel_max) == cur + 1,
        !stopped && cur >= panel_max ==> spec_nav_next(cur, stopped, count, panel_max) == 0,
{
    let m: int = if stopped {
        count as int
    } else {
        panel_max + 1
    };
    let c: int = if stopped {
        cur as int
    } else if cur > panel_max {
        panel_max as int
    } else {
        cur as int
    };
    if c + 1 < m {
        vstd::arithmetic::div_mod::lemma_small_mod((c + 1) as nat, m as nat);
    } else {
        vstd::arithmetic::div_mod::lemma_fundamental_div_mod_converse(c + 1, m, 1, 0);
    }
}

/// Previous moves to the window before and wraps from home to the last one:
/// over all windows when stopped, over the panel windows while moving (from
/// a full-screen window it goes to the panel window before the last).
pub proof fn lemma_prev_steps_back(cur: i32, stopped: bool, count: i32, panel_max: i32)
    requires
        layout_ok(count, panel_max),
        0 <= cur < count,
    ensures
        stopped && cur > 0 ==> spec_nav_prev(cur, stopped, count, panel_max) == cur - 1,
        stopped && cur == 0 ==> spec_nav_prev(cur, stopped, count, panel_max) == count - 1,
        !stopped && 0 < cur <= panel_max ==> spec_nav_prev(cur, stopped, count, panel_max) == cur
            - 1,
        !stopped && cur == 0 ==> spec_nav_prev(cur, stopped, count, panel_max) == panel_max,
        !stopped && cur > panel_max && panel_max > 0 ==> spec_nav_prev(
            cur,
            stopped,
            count,
            panel_max,
        ) == panel_max - 1,
{
    let m: int = if stopped {
        count as int
    } else {
        panel_max + 1
    };
    let c: int = if stopped {
        cur as int
    } else if cur > panel_max {
        panel_max as int
    } else {
        cur as int
    };
    if c >= 1 {
        vstd::arithmetic::div_mod::lemma_small_mod((c - 1) as nat, m as nat);
    } else {
        vstd::arithmetic::div_mod::lemma_fundamental_div_mod_converse(c - 1, m, -1, m - 1);
    }
}

/// A number key opens its window unless it names no window (ignored) or a
/// full-screen window while moving (blocked): every panel window opens while
/// moving, every window opens when stopped.
pub proof fn lemma_select_cases(idx: i32, stopped: bool, count: i32, panel_max: i32)
    ensures
        !(0 <= idx < count) <==> spec_nav_select(idx, stopped, count, panel_max)
            == WindowSelect::Ignored,
        spec_nav_select(idx, stopped, count, panel_max) == WindowSelect::Blocked <==> (0 <= idx
            < count && idx > panel_max && !stopped),
        (0 <= idx < count && (stopped || idx <= panel_max)) ==> spec_nav_select(
            idx,
            stopped,
            count,
            panel_max,
        ) == WindowSelect::Open(idx),
{
}

/// A tick keeps the current window except a full-screen one while moving,
/// which closes to home; panel windows never close.
pub proof fn lemma_close_only_full_screen(cur: i32, stopped: bool, panel_max: i32)
    ensures
        cur <= panel_max ==> spec_close_if_moving(cur, stopped, panel_max) == cur,
        stopped ==> spec_close_if_moving(cur, stopped, panel_max) == cur,
        !stopped && cur > panel_max ==> spec_close_if_moving(cur, stopped, panel_max) == 0,
{
}

} // verus!
