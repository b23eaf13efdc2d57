//! What the Back button did.
use vstd::prelude::*;

verus! {

/// Result of `Menu::back`.
#[derive(Debug, Clone, Copy, PartialEq, Eq, Structural)]
pub enum BackResult {
    /// Went up one level inside the window.
    Stay,
    /// Was already at the main menu — leave the window.
    LeaveWindow,
}

} // verus!
