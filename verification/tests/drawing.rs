use lumbus::drawing::{ClickLetter, DISPLAY_MODE_CIRCLE, DISPLAY_MODE_LEFT, DISPLAY_MODE_RIGHT, LANG_EN, LANG_ES};
use lumbus::render::overlay_letter;
use lumbus::window_level::{nspop_up_menu_window_level, overlay_window_level};

#[test]
fn test_click_letter_as_char() {
    // English
    assert_eq!(ClickLetter::Left.as_char(false), 'L');
    assert_eq!(ClickLetter::Right.as_char(false), 'R');
    // Spanish
    assert_eq!(ClickLetter::Left.as_char(true), 'I');
    assert_eq!(ClickLetter::Right.as_char(true), 'D');
}

#[test]
fn letter_from_display_mode() {
    assert_eq!(ClickLetter::from_display_mode(DISPLAY_MODE_LEFT), Some(ClickLetter::Left));
    assert_eq!(ClickLetter::from_display_mode(DISPLAY_MODE_RIGHT), Some(ClickLetter::Right));
    assert_eq!(ClickLetter::from_display_mode(DISPLAY_MODE_CIRCLE), None);
    assert_eq!(ClickLetter::from_display_mode(7), None);
}

#[test]
fn overlay_letter_per_language() {
    assert_eq!(overlay_letter(DISPLAY_MODE_LEFT, LANG_EN), Some('L'));
    assert_eq!(overlay_letter(DISPLAY_MODE_RIGHT, LANG_EN), Some('R'));
    assert_eq!(overlay_letter(DISPLAY_MODE_LEFT, LANG_ES), Some('I'));
    assert_eq!(overlay_letter(DISPLAY_MODE_RIGHT, LANG_ES), Some('D'));
    assert_eq!(overlay_letter(DISPLAY_MODE_CIRCLE, LANG_ES), None);
}

#[test]
fn window_levels() {
    assert_eq!(nspop_up_menu_window_level(), 201);
    assert_eq!(overlay_window_level(), 202);
}
