//! Mouse and keyboard input decisions.
//!
//! A pressed button shows its letter; releasing either button goes back to
//! the circle. On Windows the decision is made in a low-level mouse hook,
//! on macOS in global event monitors; both follow the same table.

use vstd::prelude::*;
use crate::drawing::{DISPLAY_MODE_CIRCLE, DISPLAY_MODE_LEFT, DISPLAY_MODE_RIGHT};

verus! {

/// Win32 message: left button pressed.
pub const WM_LBUTTONDOWN: u32 = 0x0201;
/// Win32 message: left button released.
pub const WM_LBUTTONUP: u32 = 0x0202;
/// Win32 message: right button pressed.
pub const WM_RBUTTONDOWN: u32 = 0x0204;
/// Win32 message: right button released.
pub const WM_RBUTTONUP: u32 = 0x0205;

/// A mouse button.
#[derive(Debug, Clone, Copy, PartialEq, Eq, Structural)]
pub enum MouseButton {
    Left,
    Right,
}

/// The display mode after a button is pressed (`down`) or released.
pub open spec fn spec_mode_for_button(button: MouseButton, down: bool) -> i32 {
    if !down {
        DISPLAY_MODE_CIRCLE
    } else {
        match button {
            MouseButton::Left => DISPLAY_MODE_LEFT,
            MouseButton::Right => DISPLAY_MODE_RIGHT,
        }
    }
}

/// The display mode after a button is pressed (`down`) or released:
/// left shows the left letter, right the right letter, release the circle.
pub fn display_mode_for_button(button: MouseButton, down: bool) -> (mode: i32)
    ensures
        mode == spec_mode_for_button(button, down),
{
    if !down {
        DISPLAY_MODE_CIRCLE
    } else {
        match button {
            MouseButton::Left => DISPLAY_MODE_LEFT,
            MouseButton::Right => DISPLAY_MODE_RIGHT,
        }
    }
}

/// The button event a Win32 mouse message reports, if it is one of the
/// four button messages.
pub open spec fn spec_button_event(message: u32) -> Option<(MouseButton, bool)> {
    if message == WM_LBUTTONDOWN {
        Some((MouseButton::Left, true))
    } else if message == WM_LBUTTONUP {
        Some((MouseButton::Left, false))
    } else if message == WM_RBUTTONDOWN {
        Some((MouseButton::Right, true))
    } else if message == WM_RBUTTONUP {
        Some((MouseButton::Right, false))
    } else {
        None
    }
}

/// The new display mode for a low-level mouse hook call, or `None` when
/// the mode stays as it is: only for `code >= 0` and a button message
/// (taken from the low 32 bits of `wparam`).
pub fn mouse_hook_display_mode(code: i32, wparam: usize) -> (mode: Option<i32>)
    ensures
        code < 0 ==> mode is None,
        code >= 0 ==> mode == (match spec_button_event(wparam as u32) {
            Some((button, down)) => Some(spec_mode_for_button(button, down)),
            None => None,
        }),
{
    if code < 0 {
        return None;
    }
    let message = wparam as u32;
    if message == WM_LBUTTONDOWN {
        Some(display_mode_for_button(MouseButton::Left, true))
    } else if message == WM_LBUTTONUP {
        Some(display_mode_for_button(MouseButton::Left, false))
    } else if message == WM_RBUTTONDOWN {
        Some(display_mode_for_button(MouseButton::Right, true))
    } else if message == WM_RBUTTONUP {
        Some(display_mode_for_button(MouseButton::Right, false))
    } else {
        None
    }
}

/// Releasing any button brings back the circle; a press never does.
pub proof fn lemma_release_shows_circle(button: MouseButton)
    ensures
        spec_mode_for_button(button, false) == DISPLAY_MODE_CIRCLE,
        spec_mode_for_button(button, true) != DISPLAY_MODE_CIRCLE,
        spec_mode_for_button(MouseButton::Left, true) != spec_mode_for_button(
            MouseButton::Right,
            true,
        ),
{
}

/// Event mask for key-down events (`NSEventMaskKeyDown`).
pub const KEY_DOWN_MASK: u64 = 1 << 10;
/// Event mask for left-button-down events.
pub const LEFT_DOWN_MASK: u64 = 1 << 1;
/// Event mask for left-button-up events.
pub const LEFT_UP_MASK: u64 = 1 << 2;
/// Event mask for right-button-down events.
pub const RIGHT_DOWN_MASK: u64 = 1 << 3;
/// Event mask for right-button-up events.
pub const RIGHT_UP_MASK: u64 = 1 << 4;
/// Event mask for mouse-moved events.
pub const MOUSE_MOVED_MASK: u64 = 1 << 6;
/// Modifier flag of the Control key.
pub const CONTROL_FLAG: u64 = 1 << 18;
/// Virtual key code of the `A` key.
pub const KEYCODE_A: u16 = 0;

/// Whether a key-down event is Control+A, the overlay toggle: the `A` key
/// with the Control flag set (other modifiers may be held too).
pub fn is_toggle_key(keycode: u16, modifier_flags: u64) -> (r: bool)
    ensures
        r == (keycode == KEYCODE_A && modifier_flags & CONTROL_FLAG != 0),
{
    keycode == KEYCODE_A && (modifier_flags & CONTROL_FLAG) != 0
}

} // verus!
