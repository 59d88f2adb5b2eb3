use lumbus::main_window::{MENU_ABOUT, MENU_HELP, MENU_QUIT, MENU_SETTINGS, MENU_TOGGLE};
use lumbus::texts::{help_message, help_title, tray_menu_items, install_menu_items, install_tooltip, tray_tooltip, settings_labels, language_names};

#[test]
fn help_text_english() {
    let expected = "Ctrl + Shift + A     Toggle overlay\n\
Ctrl + Shift + S     Open settings\n\
Ctrl + Shift + H     Show help\n\
Ctrl + Shift + Q     Quit application\n\
\n\
Press OK to close";
    assert_eq!(help_message(false), expected);
    assert_eq!(help_message(false), format!("{:<20} {}\n{:<20} {}\n{:<20} {}\n{:<20} {}\n\nPress OK to close",
        "Ctrl + Shift + A", "Toggle overlay", "Ctrl + Shift + S", "Open settings",
        "Ctrl + Shift + H", "Show help", "Ctrl + Shift + Q", "Quit application"));
    assert_eq!(help_title(false), "Keyboard Shortcuts");
}

#[test]
fn help_text_spanish() {
    let mut expected = String::new();
    for (k, d) in [
        ("Ctrl + Shift + A", "Alternar overlay"),
        ("Ctrl + Shift + S", "Abrir configuración"),
        ("Ctrl + Shift + H", "Mostrar ayuda"),
        ("Ctrl + Shift + Q", "Salir de la aplicación"),
    ] {
        expected.push_str(&format!("{:<20} {}\n", k, d));
    }
    expected.push('\n');
    expected.push_str("Pulsa Aceptar para cerrar");
    assert_eq!(help_message(true), expected);
    assert_eq!(help_title(true), "Atajos de Teclado");
}

#[test]
fn tray_menus() {
    let en = tray_menu_items(false);
    assert_eq!(en[0], (MENU_TOGGLE, "Toggle (Ctrl+Shift+A)"));
    assert_eq!(en[1], (MENU_SETTINGS, "Settings (Ctrl+Shift+S)"));
    assert_eq!(en[2], (MENU_HELP, "Help (Ctrl+Shift+H)"));
    assert_eq!(en[4], (MENU_QUIT, "Quit (Ctrl+Shift+Q)"));
    let es = tray_menu_items(true);
    assert_eq!(es[1].1, "Configuración (Ctrl+Shift+S)");
    assert_eq!(es[3], (MENU_ABOUT, "Acerca de..."));
    assert_eq!(es[4], (MENU_QUIT, "Salir (Ctrl+Shift+Q)"));
    let first = install_menu_items();
    assert_eq!(first.len(), 7);
    assert_eq!(first[5], (MENU_ABOUT, "About..."));
    assert_eq!(first[6], (MENU_QUIT, "Quit (Ctrl+Shift+Q)"));
}

#[test]
fn tooltips() {
    assert_eq!(install_tooltip(), "Lumbus - Mouse Highlighter");
    assert_eq!(tray_tooltip(true), "Lumbus - Visible");
    assert_eq!(tray_tooltip(false), "Lumbus - Hidden");
}

#[test]
fn settings_texts() {
    let es = settings_labels(true);
    assert_eq!(es.title, "Configuración");
    assert_eq!(es.transparency, "Transparencia (%)");
    assert_eq!(es.close, "Cerrar");
    let en = settings_labels(false);
    assert_eq!(en.radius, "Radius (px)");
    assert_eq!(en.choose, "Choose...");
    assert_eq!(language_names(), ["English", "Español"]);
}
