use lumbus::drawing::{LANG_EN, LANG_ES};
use lumbus::main_window::{registered_hotkeys, hotkeys_released_at_exit, HotkeySpec, HOTKEY_TOGGLE, HOTKEY_SETTINGS, HOTKEY_HELP, HOTKEY_QUIT, OverlayControl, WindowResponse, TRAY_RIGHT_BUTTON_UP, TRAY_DOUBLE_CLICK, MENU_TOGGLE, MENU_SETTINGS, MENU_ABOUT, MENU_HELP, MENU_QUIT, TIMER_CURSOR};

#[test]
fn hotkeys_registered_and_released() {
    let keys = registered_hotkeys();
    assert_eq!(keys[0], HotkeySpec { id: HOTKEY_TOGGLE, vk: 0x41 });
    assert_eq!(keys[1], HotkeySpec { id: HOTKEY_SETTINGS, vk: 0x53 });
    assert_eq!(keys[2], HotkeySpec { id: HOTKEY_HELP, vk: 0x48 });
    assert_eq!(keys[3], HotkeySpec { id: HOTKEY_QUIT, vk: 0x51 });
    assert_eq!(hotkeys_released_at_exit(), [HOTKEY_TOGGLE, HOTKEY_SETTINGS, HOTKEY_QUIT]);
}

#[test]
fn toggle_hotkey_flips_visibility() {
    let mut c = OverlayControl::new();
    assert_eq!(c.on_hotkey(HOTKEY_TOGGLE), WindowResponse::Toggled { visible: false, update_tooltip: false });
    assert!(!c.visible);
    assert_eq!(c.on_hotkey(HOTKEY_TOGGLE), WindowResponse::Toggled { visible: true, update_tooltip: false });
    assert!(c.visible);
}

#[test]
fn other_hotkeys() {
    let mut c = OverlayControl { visible: true, lang: LANG_ES };
    assert_eq!(c.on_hotkey(HOTKEY_SETTINGS), WindowResponse::OpenSettings);
    assert_eq!(c.on_hotkey(HOTKEY_HELP), WindowResponse::ShowHelp { spanish: true });
    assert_eq!(c.on_hotkey(HOTKEY_QUIT), WindowResponse::Quit);
    assert_eq!(c.on_hotkey(99), WindowResponse::Ignore);
    assert!(c.visible);
}

#[test]
fn tray_events() {
    let mut c = OverlayControl::new();
    assert_eq!(c.on_tray_event(TRAY_RIGHT_BUTTON_UP), WindowResponse::ShowTrayMenu);
    assert_eq!(c.on_tray_event(TRAY_DOUBLE_CLICK), WindowResponse::Toggled { visible: false, update_tooltip: true });
    assert_eq!(c.on_tray_event(0x0200), WindowResponse::Ignore);
    assert!(!c.visible);
}

#[test]
fn menu_commands() {
    let mut c = OverlayControl { visible: false, lang: LANG_EN };
    assert_eq!(c.on_menu_command(MENU_TOGGLE as usize), WindowResponse::Toggled { visible: true, update_tooltip: true });
    assert_eq!(c.on_menu_command(MENU_SETTINGS as usize), WindowResponse::OpenSettings);
    assert_eq!(c.on_menu_command(MENU_ABOUT as usize), WindowResponse::ShowAbout);
    assert_eq!(c.on_menu_command(MENU_HELP as usize), WindowResponse::ShowHelp { spanish: false });
    assert_eq!(c.on_menu_command(MENU_QUIT as usize), WindowResponse::Quit);
    // Only the low 16 bits carry the command.
    assert_eq!(c.on_menu_command((1 << 16) | MENU_QUIT as usize), WindowResponse::Quit);
    assert_eq!(c.on_menu_command(7), WindowResponse::Ignore);
}

#[test]
fn cursor_timer_redraws() {
    let c = OverlayControl::new();
    assert_eq!(c.on_timer(TIMER_CURSOR), WindowResponse::Redraw);
    assert_eq!(c.on_timer(2), WindowResponse::Ignore);
}
