//! Window levels used by the overlay windows and dialogs.

use vstd::prelude::*;

verus! {

/// Window level slightly above context menus and the Dock
/// (the value of `NSPopUpMenuWindowLevel`).
pub fn nspop_up_menu_window_level() -> (level: i64)
    ensures
        level == 201,
{
    201
}

/// Window level for the overlay windows: one above pop-up menus.
pub fn overlay_window_level() -> (level: i64)
    ensures
        level == 202,
        level == 201 + 1,
{
    nspop_up_menu_window_level() + 1
}

} // verus!
