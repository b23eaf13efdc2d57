//! Which connectivity screen is showing.
use vstd::prelude::*;

verus! {

/// Main menu / Bluetooth list / Wi-Fi list.
#[derive(Debug, Clone, Copy, PartialEq, Eq, Structural)]
pub enum Screen {
    /// Top-level menu (radios + list entries).
    Main,
    /// Bluetooth device list.
    BtList,
    /// Wi-Fi network list.
    WifiList,
}

/// The number the dashboard uses for a screen.
pub open spec fn spec_screen_code(s: Screen) -> i32 {
    match s {
        Screen::Main => 0,
        Screen::BtList => 1,
        Screen::WifiList => 2,
    }
}

impl Default for Screen {
    fn default() -> (s: Screen)
        ensures
            s == Screen::Main,
    {
        Screen::Main
    }
}

impl Screen {
    /// Dashboard-facing discriminant: 0 main, 1 Bluetooth list, 2 Wi-Fi list.
    pub fn as_i32(self) -> (n: i32)
        ensures
            n == spec_screen_code(self),
    {
        match self {
            Screen::Main => 0,
            Screen::BtList => 1,
            Screen::WifiList => 2,
        }
    }
}


/// The dashboard numbers the screens 0 (main), 1 (Bluetooth list) and 2
/// (Wi-Fi list), so different screens get different numbers.
pub proof fn lemma_screen_codes(a: Screen, b: Screen)
    ensures
        a == Screen::Main ==> spec_screen_code(a) == 0,
        a == Screen::BtList ==> spec_screen_code(a) == 1,
        a == Screen::WifiList ==> spec_screen_code(a) == 2,
        a != b ==> spec_screen_code(a) != spec_screen_code(b),
{
}

} // verus!
