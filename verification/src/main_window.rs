//! Decisions of the overlay's main window on Windows: global hotkeys, the
//! tray icon, its context menu and the cursor timer.
//!
//! The window procedure hands each message to [`OverlayControl`], which
//! updates the visibility and says what the front end has to do.

use vstd::prelude::*;
use crate::drawing::LANG_ES;

verus! {

/// Hotkey id: toggle the overlay.
pub const HOTKEY_TOGGLE: i32 = 1;
/// Hotkey id: open the settings.
pub const HOTKEY_SETTINGS: i32 = 2;
/// Hotkey id: quit.
pub const HOTKEY_QUIT: i32 = 3;
/// Hotkey id: show the help.
pub const HOTKEY_HELP: i32 = 4;

/// Virtual key `A`.
pub const VK_A: u32 = 0x41;
/// Virtual key `H`.
pub const VK_H: u32 = 0x48;
/// Virtual key `Q`.
pub const VK_Q: u32 = 0x51;
/// Virtual key `S`.
pub const VK_S: u32 = 0x53;

/// Timer id of the cursor-tracking timer.
pub const TIMER_CURSOR: usize = 1;
/// Interval of the cursor-tracking timer in milliseconds (about 60 FPS).
pub const TIMER_INTERVAL_MS: u32 = 16;

/// Tray menu item: toggle.
pub const MENU_TOGGLE: u32 = 1001;
/// Tray menu item: settings.
pub const MENU_SETTINGS: u32 = 1002;
/// Tray menu item: help.
pub const MENU_HELP: u32 = 1003;
/// Tray menu item: about.
pub const MENU_ABOUT: u32 = 1004;
/// Tray menu item: quit.
pub const MENU_QUIT: u32 = 1005;

/// Tray notification: right button released (show the menu).
pub const TRAY_RIGHT_BUTTON_UP: u32 = 0x0205;
/// Tray notification: left double click (toggle).
pub const TRAY_DOUBLE_CLICK: u32 = 0x0203;

/// A global hotkey: its id and the virtual key pressed with Ctrl+Shift.
#[derive(Debug, Clone, Copy, PartialEq, Eq, Structural)]
pub struct HotkeySpec {
    pub id: i32,
    pub vk: u32,
}

/// The global hotkeys registered at start, all with Ctrl+Shift:
/// A toggles, S opens the settings, H shows the help, Q quits.
pub fn registered_hotkeys() -> (keys: [HotkeySpec; 4])
    ensures
        keys@ == seq![
            HotkeySpec { id: HOTKEY_TOGGLE, vk: VK_A },
            HotkeySpec { id: HOTKEY_SETTINGS, vk: VK_S },
            HotkeySpec { id: HOTKEY_HELP, vk: VK_H },
            HotkeySpec { id: HOTKEY_QUIT, vk: VK_Q },
        ],
{
    let keys = [
        HotkeySpec { id: HOTKEY_TOGGLE, vk: VK_A },
        HotkeySpec { id: HOTKEY_SETTINGS, vk: VK_S },
        HotkeySpec { id: HOTKEY_HELP, vk: VK_H },
        HotkeySpec { id: HOTKEY_QUIT, vk: VK_Q },
    ];
    assert(keys@ =~= seq![
        HotkeySpec { id: HOTKEY_TOGGLE, vk: VK_A },
        HotkeySpec { id: HOTKEY_SETTINGS, vk: VK_S },
        HotkeySpec { id: HOTKEY_HELP, vk: VK_H },
        HotkeySpec { id: HOTKEY_QUIT, vk: VK_Q },
    ]);
    keys
}

/// The hotkey ids unregistered when the message loop ends: toggle,
/// settings and quit (the help hotkey is left to the system's cleanup at
/// process exit).
pub fn hotkeys_released_at_exit() -> (ids: [i32; 3])
    ensures
        ids@ == seq![HOTKEY_TOGGLE, HOTKEY_SETTINGS, HOTKEY_QUIT],
{
    let ids = [HOTKEY_TOGGLE, HOTKEY_SETTINGS, HOTKEY_QUIT];
    assert(ids@ =~= seq![HOTKEY_TOGGLE, HOTKEY_SETTINGS, HOTKEY_QUIT]);
    ids
}

/// What the front end does in answer to a message.
#[derive(Debug, Clone, Copy, PartialEq, Eq, Structural)]
pub enum WindowResponse {
    /// The overlay was toggled; redraw it, and show the new state in the
    /// tray tooltip when `update_tooltip`.
    Toggled { visible: bool, update_tooltip: bool },
    /// Open the settings window (modal), then reload settings and redraw.
    OpenSettings,
    /// Show the keyboard-shortcut help in the given language.
    ShowHelp { spanish: bool },
    /// Show the About dialog.
    ShowAbout,
    /// End the message loop.
    Quit,
    /// Show the tray context menu at the cursor.
    ShowTrayMenu,
    /// Redraw the overlay (if anything changed).
    Redraw,
    /// Nothing to do.
    Ignore,
}

/// The overlay's switches the window procedure reads and changes.
#[derive(Debug, Clone, Copy, PartialEq, Eq, Structural)]
pub struct OverlayControl {
    /// Whether the overlay is shown.
    pub visible: bool,
    /// Interface language.
    pub lang: i32,
}

/// The answer to a hotkey, with the switches after it.
pub open spec fn spec_on_hotkey(c: OverlayControl, id: i32) -> (OverlayControl, WindowResponse) {
    if id == HOTKEY_TOGGLE {
        (
            OverlayControl { visible: !c.visible, ..c },
            WindowResponse::Toggled { visible: !c.visible, update_tooltip: false },
        )
    } else if id == HOTKEY_SETTINGS {
        (c, WindowResponse::OpenSettings)
    } else if id == HOTKEY_HELP {
        (c, WindowResponse::ShowHelp { spanish: c.lang == LANG_ES })
    } else if id == HOTKEY_QUIT {
        (c, WindowResponse::Quit)
    } else {
        (c, WindowResponse::Ignore)
    }
}

/// The answer to a tray notification, with the switches after it.
pub open spec fn spec_on_tray_event(c: OverlayControl, event: u32) -> (
    OverlayControl,
    WindowResponse,
) {
    if event == TRAY_RIGHT_BUTTON_UP {
        (c, WindowResponse::ShowTrayMenu)
    } else if event == TRAY_DOUBLE_CLICK {
        (
            OverlayControl { visible: !c.visible, ..c },
            WindowResponse::Toggled { visible: !c.visible, update_tooltip: true },
        )
    } else {
        (c, WindowResponse::Ignore)
    }
}

/// The answer to a menu command (its id in the low 16 bits of `wparam`),
/// with the switches after it.
pub open spec fn spec_on_menu_command(c: OverlayControl, wparam: usize) -> (
    OverlayControl,
    WindowResponse,
) {
    let cmd = wparam as int % 0x10000;
    if cmd == MENU_TOGGLE {
        (
            OverlayControl { visible: !c.visible, ..c },
            WindowResponse::Toggled { visible: !c.visible, update_tooltip: true },
        )
    } else if cmd == MENU_SETTINGS {
        (c, WindowResponse::OpenSettings)
    } else if cmd == MENU_ABOUT {
        (c, WindowResponse::ShowAbout)
    } else if cmd == MENU_HELP {
        (c, WindowResponse::ShowHelp { spanish: c.lang == LANG_ES })
    } else if cmd == MENU_QUIT {
        (c, WindowResponse::Quit)
    } else {
        (c, WindowResponse::Ignore)
    }
}

impl OverlayControl {
    /// Visible overlay, English.
    pub fn new() -> (c: Self)
        ensures
            c.visible,
            c.lang == crate::drawing::LANG_EN,
    {
        OverlayControl { visible: true, lang: crate::drawing::LANG_EN }
    }

    /// Answer a global hotkey.
    pub fn on_hotkey(&mut self, id: i32) -> (r: WindowResponse)
        ensures
            (*final(self), r) == spec_on_hotkey(*old(self), id),
    {
        if id == HOTKEY_TOGGLE {
            self.visible = !self.visible;
            WindowResponse::Toggled { visible: self.visible, update_tooltip: false }
        } else if id == HOTKEY_SETTINGS {
            WindowResponse::OpenSettings
        } else if id == HOTKEY_HELP {
            WindowResponse::ShowHelp { spanish: self.lang == LANG_ES }
        } else if id == HOTKEY_QUIT {
            WindowResponse::Quit
        } else {
            WindowResponse::Ignore
        }
    }

    /// Answer a tray-icon notification (`event` is the message in `lparam`).
    pub fn on_tray_event(&mut self, event: u32) -> (r: WindowResponse)
        ensures
            (*final(self), r) == spec_on_tray_event(*old(self), event),
    {
        if event == TRAY_RIGHT_BUTTON_UP {
            WindowResponse::ShowTrayMenu
        } else if event == TRAY_DOUBLE_CLICK {
            self.visible = !self.visible;
            WindowResponse::Toggled { visible: self.visible, update_tooltip: true }
        } else {
            WindowResponse::Ignore
        }
    }

    /// Answer a menu command.
    pub fn on_menu_command(&mut self, wparam: usize) -> (r: WindowResponse)
        ensures
            (*final(self), r) == spec_on_menu_command(*old(self), wparam),
    {
        let low = wparam & 0xFFFF;
        assert(low == wparam % 0x10000) by (bit_vector)
            requires
                low == wparam & 0xFFFF,
        ;
        let cmd = low as u32;
        if cmd == MENU_TOGGLE {
            self.visible = !self.visible;
            WindowResponse::Toggled { visible: self.visible, update_tooltip: true }
        } else if cmd == MENU_SETTINGS {
            WindowResponse::OpenSettings
        } else if cmd == MENU_ABOUT {
            WindowResponse::ShowAbout
        } else if cmd == MENU_HELP {
            WindowResponse::ShowHelp { spanish: self.lang == LANG_ES }
        } else if cmd == MENU_QUIT {
            WindowResponse::Quit
        } else {
            WindowResponse::Ignore
        }
    }

    /// Answer a timer tick: the cursor timer redraws, other timers do
    /// nothing.
    pub fn on_timer(&self, timer_id: usize) -> (r: WindowResponse)
        ensures
            r == if timer_id == TIMER_CURSOR {
                WindowResponse::Redraw
            } else {
                WindowResponse::Ignore
            },
    {
        if timer_id == TIMER_CURSOR {
            WindowResponse::Redraw
        } else {
            WindowResponse::Ignore
        }
    }
}

/// Toggling twice, by any of the three ways (hotkey, tray double click,
/// menu item), gives back the visibility it started with; only toggles
/// change the visibility, and nothing changes the language.
pub proof fn lemma_toggle_twice(c: OverlayControl, id: i32, event: u32, wparam: usize)
    ensures
        spec_on_hotkey(spec_on_hotkey(c, HOTKEY_TOGGLE).0, HOTKEY_TOGGLE).0 == c,
        spec_on_tray_event(spec_on_tray_event(c, TRAY_DOUBLE_CLICK).0, TRAY_DOUBLE_CLICK).0 == c,
        spec_on_hotkey(c, id).0.lang == c.lang,
        spec_on_tray_event(c, event).0.lang == c.lang,
        spec_on_menu_command(c, wparam).0.lang == c.lang,
        id != HOTKEY_TOGGLE ==> spec_on_hotkey(c, id).0 == c,
        event != TRAY_DOUBLE_CLICK ==> spec_on_tray_event(c, event).0 == c,
        spec_on_menu_command(c, wparam).1 is Toggled || spec_on_menu_command(c, wparam).0 == c,
{
}

/// The toggle reported is the visibility after the message.
pub proof fn lemma_toggle_reports_new_state(c: OverlayControl, wparam: usize)
    ensures
        spec_on_hotkey(c, HOTKEY_TOGGLE).1 == (WindowResponse::Toggled {
            visible: spec_on_hotkey(c, HOTKEY_TOGGLE).0.visible,
            update_tooltip: false,
        }),
        spec_on_menu_command(c, wparam).1 matches WindowResponse::Toggled { visible, .. }
            ==> visible == spec_on_menu_command(c, wparam).0.visible,
{
}

/// The help asked for by the help hotkey or the Help menu item is in the
/// configured language, whether the overlay is shown or hidden, and asking
/// for it changes no switch.
pub proof fn lemma_help_in_configured_language(c: OverlayControl, visible: bool)
    ensures
        spec_on_hotkey(c, HOTKEY_HELP) == (c, WindowResponse::ShowHelp { spanish: c.lang == LANG_ES }),
        spec_on_menu_command(c, MENU_HELP as usize) == (c, WindowResponse::ShowHelp {
            spanish: c.lang == LANG_ES,
        }),
        spec_on_hotkey(OverlayControl { visible, ..c }, HOTKEY_HELP).1 == spec_on_hotkey(
            c,
            HOTKEY_HELP,
        ).1,
{
}

} // verus!
