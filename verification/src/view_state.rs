//! Decisions of the macOS overlay views: which screen's view shows the
//! pointer, the language switch, and values read back from the system.

use vstd::prelude::*;
use crate::drawing::{LANG_EN, LANG_ES};

verus! {

/// Whether a language code is Spanish.
pub fn lang_is_es(lang: i32) -> (r: bool)
    ensures
        r == (lang == LANG_ES),
{
    lang == LANG_ES
}

/// Whether the overlay view of the display `own_display_id` shows the
/// pointer, which is on display `target_display_id` (0: on no display):
/// only when the overlay is enabled and the pointer is on that display.
pub fn view_visible(enabled: bool, own_display_id: u32, target_display_id: u32) -> (r: bool)
    ensures
        r == (enabled && own_display_id == target_display_id && target_display_id != 0),
{
    enabled && own_display_id == target_display_id && target_display_id != 0
}

/// At most one display's view shows the pointer at a time.
pub proof fn lemma_one_view_visible(enabled: bool, a: u32, b: u32, target: u32)
    requires
        a != b,
    ensures
        !((enabled && a == target && target != 0) && (enabled && b == target && target != 0)),
{
}

/// The language chosen in the language pop-up: the second item is
/// Spanish, anything else English.
pub fn lang_from_popup_index(index: isize) -> (lang: i32)
    ensures
        lang == if index == 1 { LANG_ES } else { LANG_EN },
{
    if index == 1 {
        LANG_ES
    } else {
        LANG_EN
    }
}

/// The display id of a screen from its `NSScreenNumber` entry (truncated to
/// 32 bits), or 0 when the entry is missing.
pub fn display_id_from_number(number: Option<u64>) -> (id: u32)
    ensures
        id == match number {
            Some(v) => v as u32,
            None => 0u32,
        },
{
    match number {
        Some(v) => v as u32,
        None => 0,
    }
}

/// The integer preference read from the user defaults: the stored value
/// (truncated to 32 bits), or `default` when nothing is stored.
pub fn stored_int_or_default(stored: Option<i64>, default: i32) -> (v: i32)
    ensures
        v == match stored {
            Some(x) => x as i32,
            None => default,
        },
{
    match stored {
        Some(x) => x as i32,
        None => default,
    }
}

} // verus!
