use lumbus::drawing::{DISPLAY_MODE_CIRCLE, DISPLAY_MODE_LEFT, DISPLAY_MODE_RIGHT};
use lumbus::input::{display_mode_for_button, mouse_hook_display_mode, is_toggle_key, MouseButton, WM_LBUTTONDOWN, WM_RBUTTONDOWN, WM_LBUTTONUP, WM_RBUTTONUP, KEYCODE_A, CONTROL_FLAG};

#[test]
fn buttons_map_to_modes() {
    assert_eq!(display_mode_for_button(MouseButton::Left, true), DISPLAY_MODE_LEFT);
    assert_eq!(display_mode_for_button(MouseButton::Right, true), DISPLAY_MODE_RIGHT);
    assert_eq!(display_mode_for_button(MouseButton::Left, false), DISPLAY_MODE_CIRCLE);
    assert_eq!(display_mode_for_button(MouseButton::Right, false), DISPLAY_MODE_CIRCLE);
}

#[test]
fn mouse_hook_messages() {
    assert_eq!(mouse_hook_display_mode(0, WM_LBUTTONDOWN as usize), Some(DISPLAY_MODE_LEFT));
    assert_eq!(mouse_hook_display_mode(0, WM_RBUTTONDOWN as usize), Some(DISPLAY_MODE_RIGHT));
    assert_eq!(mouse_hook_display_mode(0, WM_LBUTTONUP as usize), Some(DISPLAY_MODE_CIRCLE));
    assert_eq!(mouse_hook_display_mode(3, WM_RBUTTONUP as usize), Some(DISPLAY_MODE_CIRCLE));
    assert_eq!(mouse_hook_display_mode(0, 0x0200), None);
    assert_eq!(mouse_hook_display_mode(-1, WM_LBUTTONDOWN as usize), None);
}

#[test]
fn control_a_toggles() {
    assert!(is_toggle_key(KEYCODE_A, CONTROL_FLAG));
    assert!(is_toggle_key(KEYCODE_A, CONTROL_FLAG | (1 << 17)));
    assert!(!is_toggle_key(KEYCODE_A, 1 << 17));
    assert!(!is_toggle_key(1, CONTROL_FLAG));
}
