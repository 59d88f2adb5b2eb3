use lumbus::config::PrefKey;
use lumbus::drawing::{LANG_EN, LANG_ES};
use lumbus::settings_window::{snap_to_five, command_control_id, command_notification, slider_range, pack_colorref, unpack_colorref, lang_from_selection, selection_for_lang, command_action, slider_change, CommandAction, SliderChange, CBN_SELCHANGE, ID_LANG_COMBO, ID_CLOSE_BUTTON, ID_COLOR_BUTTON, ID_RADIUS_VALUE, ID_RADIUS_SLIDER, ID_BORDER_SLIDER, ID_TRANSP_SLIDER, MIN_RADIUS, MAX_RADIUS};

#[test]
fn snapping_to_five() {
    assert_eq!(snap_to_five(0), 0);
    assert_eq!(snap_to_five(2), 0);
    assert_eq!(snap_to_five(3), 5);
    assert_eq!(snap_to_five(47), 45);
    assert_eq!(snap_to_five(48), 50);
    assert_eq!(snap_to_five(200), 200);
    assert_eq!(snap_to_five(-2), 0);
    assert_eq!(snap_to_five(-3), 0);
    assert_eq!(snap_to_five(-8), -5);
}

#[test]
fn command_words() {
    let wparam: usize = (CBN_SELCHANGE as usize) << 16 | ID_LANG_COMBO as usize;
    assert_eq!(command_control_id(wparam), ID_LANG_COMBO);
    assert_eq!(command_notification(wparam), CBN_SELCHANGE);
    assert_eq!(command_control_id(0x1234_5678), 0x5678);
    assert_eq!(command_notification(0x1234_5678), 0x1234);
}

#[test]
fn slider_range_packs_max_high() {
    assert_eq!(slider_range(MIN_RADIUS, MAX_RADIUS), (200 << 16) | 5);
    assert_eq!(slider_range(0, 100), 100 << 16);
    assert_eq!(slider_range(-1, 2), -1);
    assert_eq!(slider_range(3, -1), (-1isize << 16) | 3);
}

#[test]
fn colorref_packing() {
    assert_eq!(pack_colorref(0x11, 0x22, 0x33), 0x0033_2211);
    assert_eq!(unpack_colorref(0x0033_2211), (0x11, 0x22, 0x33));
    assert_eq!(unpack_colorref(0xFF33_2211), (0x11, 0x22, 0x33));
    assert_eq!(unpack_colorref(pack_colorref(255, 0, 128)), (255, 0, 128));
}

#[test]
fn language_selection() {
    assert_eq!(lang_from_selection(1), LANG_ES);
    assert_eq!(lang_from_selection(0), LANG_EN);
    assert_eq!(lang_from_selection(-1), LANG_EN);
    assert_eq!(selection_for_lang(LANG_ES), 1);
    assert_eq!(selection_for_lang(LANG_EN), 0);
}

#[test]
fn command_actions() {
    assert_eq!(command_action(ID_CLOSE_BUTTON, 0), CommandAction::Close);
    assert_eq!(command_action(ID_COLOR_BUTTON, 0), CommandAction::PickColor);
    assert_eq!(command_action(ID_LANG_COMBO, CBN_SELCHANGE), CommandAction::ApplyLanguageSelection);
    assert_eq!(command_action(ID_LANG_COMBO, 3), CommandAction::Ignore);
    assert_eq!(command_action(ID_RADIUS_VALUE, 0), CommandAction::Ignore);
}

#[test]
fn slider_changes() {
    assert_eq!(
        slider_change(ID_RADIUS_SLIDER, 47),
        Some(SliderChange { key: PrefKey::Radius, value: 45, moved: true })
    );
    assert_eq!(
        slider_change(ID_RADIUS_SLIDER, 50),
        Some(SliderChange { key: PrefKey::Radius, value: 50, moved: false })
    );
    assert_eq!(
        slider_change(ID_BORDER_SLIDER, 7),
        Some(SliderChange { key: PrefKey::Border, value: 7, moved: false })
    );
    assert_eq!(
        slider_change(ID_TRANSP_SLIDER, 33),
        Some(SliderChange { key: PrefKey::FillTransparency, value: 35, moved: true })
    );
    assert_eq!(slider_change(ID_CLOSE_BUTTON, 33), None);
}
