//! User-visible texts of the Windows front end, in English and Spanish:
//! the keyboard-shortcut help, the tray menu and tooltip, and the settings
//! window's labels.

use vstd::prelude::*;
use crate::main_window::{MENU_ABOUT, MENU_HELP, MENU_QUIT, MENU_SETTINGS, MENU_TOGGLE};

verus! {

/// Width of the key column in the help text.
pub const HELP_KEY_WIDTH: usize = 20;

/// `n` spaces.
pub open spec fn spaces(n: int) -> Seq<char>
    decreases n,
{
    if n <= 0 {
        Seq::empty()
    } else {
        spaces(n - 1).push(' ')
    }
}

/// A text left-aligned in a column: padded with spaces to `width`
/// characters (longer texts are kept whole).
pub open spec fn pad_right(s: Seq<char>, width: int) -> Seq<char> {
    s + spaces(width - s.len())
}

/// One line of the help: the keys in their column, a space, the
/// description, a line break.
pub open spec fn help_line(keys: Seq<char>, desc: Seq<char>) -> Seq<char> {
    pad_right(keys, HELP_KEY_WIDTH as int) + seq![' '] + desc + seq!['\n']
}

/// The help lines for a list of (keys, description) entries, in order.
pub open spec fn help_lines(entries: Seq<(Seq<char>, Seq<char>)>) -> Seq<char>
    decreases entries.len(),
{
    if entries.len() == 0 {
        Seq::empty()
    } else {
        help_lines(entries.drop_last()) + help_line(entries.last().0, entries.last().1)
    }
}

/// The shortcut entries shown in the help.
pub open spec fn spec_help_entries(es: bool) -> Seq<(Seq<char>, Seq<char>)> {
    if es {
        seq![
            ("Ctrl + Shift + A"@, "Alternar overlay"@),
            ("Ctrl + Shift + S"@, "Abrir configuración"@),
            ("Ctrl + Shift + H"@, "Mostrar ayuda"@),
            ("Ctrl + Shift + Q"@, "Salir de la aplicación"@),
        ]
    } else {
        seq![
            ("Ctrl + Shift + A"@, "Toggle overlay"@),
            ("Ctrl + Shift + S"@, "Open settings"@),
            ("Ctrl + Shift + H"@, "Show help"@),
            ("Ctrl + Shift + Q"@, "Quit application"@),
        ]
    }
}

/// The help's closing line.
pub open spec fn spec_help_footer(es: bool) -> Seq<char> {
    if es {
        "Pulsa Aceptar para cerrar"@
    } else {
        "Press OK to close"@
    }
}

/// The whole help text: the shortcut lines, an empty line, the footer.
pub open spec fn spec_help_message(es: bool) -> Seq<char> {
    help_lines(spec_help_entries(es)) + seq!['\n'] + spec_help_footer(es)
}

proof fn lemma_spaces_len(n: int)
    ensures
        spaces(n).len() == if n <= 0 { 0 } else { n },
    decreases n,
{
    if n > 0 {
        lemma_spaces_len(n - 1);
    }
}

/// The help's columns line up: in every line the keys take exactly the
/// 20-character column, so all descriptions start at the same place.
pub proof fn lemma_help_columns_aligned(es: bool, i: int)
    requires
        0 <= i < 4,
    ensures
        pad_right(spec_help_entries(es)[i].0, HELP_KEY_WIDTH as int).len() == HELP_KEY_WIDTH,
{
    reveal_strlit("Ctrl + Shift + A");
    reveal_strlit("Ctrl + Shift + S");
    reveal_strlit("Ctrl + Shift + H");
    reveal_strlit("Ctrl + Shift + Q");
    let k = spec_help_entries(es)[i].0;
    assert(k.len() == 16);
    lemma_spaces_len(HELP_KEY_WIDTH as int - k.len());
}

/// The shortcut entries shown in the help, as (keys, description).
pub fn help_entries(es: bool) -> (entries: [(&'static str, &'static str); 4])
    ensures
        entries@.map_values(|p: (&'static str, &'static str)| (p.0@, p.1@))
            == spec_help_entries(es),
{
    let entries = if es {
        [
            ("Ctrl + Shift + A", "Alternar overlay"),
            ("Ctrl + Shift + S", "Abrir configuración"),
            ("Ctrl + Shift + H", "Mostrar ayuda"),
            ("Ctrl + Shift + Q", "Salir de la aplicación"),
        ]
    } else {
        [
            ("Ctrl + Shift + A", "Toggle overlay"),
            ("Ctrl + Shift + S", "Open settings"),
            ("Ctrl + Shift + H", "Show help"),
            ("Ctrl + Shift + Q", "Quit application"),
        ]
    };
    assert(entries@.map_values(|p: (&'static str, &'static str)| (p.0@, p.1@))
        =~= spec_help_entries(es));
    entries
}

/// The title of the help dialog.
pub fn help_title(es: bool) -> (t: &'static str)
    ensures
        t@ == if es { "Atajos de Teclado"@ } else { "Keyboard Shortcuts"@ },
{
    if es {
        "Atajos de Teclado"
    } else {
        "Keyboard Shortcuts"
    }
}

/// The help's closing line.
pub fn help_footer(es: bool) -> (t: &'static str)
    ensures
        t@ == spec_help_footer(es),
{
    if es {
        "Pulsa Aceptar para cerrar"
    } else {
        "Press OK to close"
    }
}

/// Append `s` left-aligned in a column of `width` characters.
fn append_padded(out: &mut String, s: &str, width: usize)
    ensures
        final(out)@ == old(out)@ + pad_right(s@, width as int),
{
    out.append(s);
    let n = s.unicode_len();
    let mut k: usize = n;
    proof {
        reveal_strlit(" ");
    }
    while k < width
        invariant
            n == s@.len(),
            n <= k <= if n <= width { width } else { n },
            out@ == old(out)@ + s@ + spaces(k - n),
        decreases width - k,
    {
        out.append(" ");
        proof {
            reveal_strlit(" ");
            assert(spaces(k + 1 - n) == spaces(k - n).push(' '));
            assert(out@ =~= old(out)@ + s@ + spaces(k + 1 - n));
        }
        k = k + 1;
    }
    assert(spaces(k - n) =~= spaces(width - n));
}

/// The text of the help dialog: one line per shortcut with the keys
/// left-aligned in a 20-character column, then an empty line and the
/// closing line.
pub fn help_message(es: bool) -> (m: String)
    ensures
        m@ == spec_help_message(es),
{
    let entries = help_entries(es);
    let ghost ev = entries@.map_values(|p: (&'static str, &'static str)| (p.0@, p.1@));
    let mut m = String::new();
    proof {
        reveal_strlit(" ");
        reveal_strlit("\n");
    }
    let mut i: usize = 0;
    while i < 4
        invariant
            i <= 4,
            ev == spec_help_entries(es),
            ev == entries@.map_values(|p: (&'static str, &'static str)| (p.0@, p.1@)),
            m@ == help_lines(ev.take(i as int)),
        decreases 4 - i,
    {
        let (keys, desc) = entries[i];
        let ghost before = m@;
        proof {
            reveal_strlit(" ");
            reveal_strlit("\n");
        }
        assert(ev[i as int] == (keys@, desc@));
        append_padded(&mut m, keys, HELP_KEY_WIDTH);
        m.append(" ");
        m.append(desc);
        m.append("\n");
        assert(ev.take(i + 1).drop_last() =~= ev.take(i as int));
        assert(ev.take(i + 1).last() == ev[i as int]);
        assert(m@ =~= before + help_line(keys@, desc@));
        i = i + 1;
    }
    assert(ev.take(4) =~= ev);
    m.append("\n");
    m.append(help_footer(es));
    m
}

/// The items of the tray context menu, as (command id, label).
pub open spec fn spec_tray_menu(es: bool) -> Seq<(u32, Seq<char>)> {
    if es {
        seq![
            (MENU_TOGGLE, "Alternar (Ctrl+Shift+A)"@),
            (MENU_SETTINGS, "Configuración (Ctrl+Shift+S)"@),
            (MENU_HELP, "Ayuda (Ctrl+Shift+H)"@),
            (MENU_ABOUT, "Acerca de..."@),
            (MENU_QUIT, "Salir (Ctrl+Shift+Q)"@),
        ]
    } else {
        seq![
            (MENU_TOGGLE, "Toggle (Ctrl+Shift+A)"@),
            (MENU_SETTINGS, "Settings (Ctrl+Shift+S)"@),
            (MENU_HELP, "Help (Ctrl+Shift+H)"@),
            (MENU_ABOUT, "About..."@),
            (MENU_QUIT, "Quit (Ctrl+Shift+Q)"@),
        ]
    }
}

/// The tray context menu in a language, as (command id, label).
pub fn tray_menu_items(es: bool) -> (entries: [(u32, &'static str); 5])
    ensures
        entries@.map_values(|p: (u32, &'static str)| (p.0, p.1@)) == spec_tray_menu(es),
{
    let entries = if es {
        [
            (MENU_TOGGLE, "Alternar (Ctrl+Shift+A)"),
            (MENU_SETTINGS, "Configuración (Ctrl+Shift+S)"),
            (MENU_HELP, "Ayuda (Ctrl+Shift+H)"),
            (MENU_ABOUT, "Acerca de..."),
            (MENU_QUIT, "Salir (Ctrl+Shift+Q)"),
        ]
    } else {
        [
            (MENU_TOGGLE, "Toggle (Ctrl+Shift+A)"),
            (MENU_SETTINGS, "Settings (Ctrl+Shift+S)"),
            (MENU_HELP, "Help (Ctrl+Shift+H)"),
            (MENU_ABOUT, "About..."),
            (MENU_QUIT, "Quit (Ctrl+Shift+Q)"),
        ]
    };
    assert(entries@.map_values(|p: (u32, &'static str)| (p.0, p.1@)) =~= spec_tray_menu(es));
    entries
}

/// The tray context menu built when the icon is installed (English; the
/// About and Quit items appear twice). It is rebuilt in the configured
/// language right after installation.
pub fn install_menu_items() -> (entries: [(u32, &'static str); 7])
    ensures
        entries@.map_values(|p: (u32, &'static str)| (p.0, p.1@)) == seq![
            (MENU_TOGGLE, "Toggle (Ctrl+Shift+A)"@),
            (MENU_SETTINGS, "Settings (Ctrl+Shift+S)"@),
            (MENU_HELP, "Help (Ctrl+Shift+H)"@),
            (MENU_ABOUT, "About..."@),
            (MENU_QUIT, "Quit (Ctrl+Shift+Q)"@),
            (MENU_ABOUT, "About..."@),
            (MENU_QUIT, "Quit (Ctrl+Shift+Q)"@),
        ],
{
    let entries = [
        (MENU_TOGGLE, "Toggle (Ctrl+Shift+A)"),
        (MENU_SETTINGS, "Settings (Ctrl+Shift+S)"),
        (MENU_HELP, "Help (Ctrl+Shift+H)"),
        (MENU_ABOUT, "About..."),
        (MENU_QUIT, "Quit (Ctrl+Shift+Q)"),
        (MENU_ABOUT, "About..."),
        (MENU_QUIT, "Quit (Ctrl+Shift+Q)"),
    ];
    assert(entries@.map_values(|p: (u32, &'static str)| (p.0, p.1@)) =~= seq![
        (MENU_TOGGLE, "Toggle (Ctrl+Shift+A)"@),
        (MENU_SETTINGS, "Settings (Ctrl+Shift+S)"@),
        (MENU_HELP, "Help (Ctrl+Shift+H)"@),
        (MENU_ABOUT, "About..."@),
        (MENU_QUIT, "Quit (Ctrl+Shift+Q)"@),
        (MENU_ABOUT, "About..."@),
        (MENU_QUIT, "Quit (Ctrl+Shift+Q)"@),
    ]);
    entries
}

/// The tray tooltip when the icon is installed.
pub fn install_tooltip() -> (t: &'static str)
    ensures
        t@ == "Lumbus - Mouse Highlighter"@,
{
    "Lumbus - Mouse Highlighter"
}

/// The tray tooltip showing whether the overlay is visible.
pub fn tray_tooltip(visible: bool) -> (t: &'static str)
    ensures
        t@ == if visible { "Lumbus - Visible"@ } else { "Lumbus - Hidden"@ },
{
    if visible {
        "Lumbus - Visible"
    } else {
        "Lumbus - Hidden"
    }
}

/// The texts of the settings window.
pub struct SettingsLabels {
    pub title: &'static str,
    pub radius: &'static str,
    pub border: &'static str,
    pub color: &'static str,
    pub choose: &'static str,
    pub transparency: &'static str,
    pub language: &'static str,
    pub close: &'static str,
}

/// The texts of the settings window in a language.
pub fn settings_labels(es: bool) -> (l: SettingsLabels)
    ensures
        l.title@ == if es { "Configuración"@ } else { "Settings"@ },
        l.radius@ == if es { "Radio (px)"@ } else { "Radius (px)"@ },
        l.border@ == if es { "Borde (px)"@ } else { "Border (px)"@ },
        l.color@ == if es { "Color"@ } else { "Color"@ },
        l.choose@ == if es { "Elegir..."@ } else { "Choose..."@ },
        l.transparency@ == if es { "Transparencia (%)"@ } else { "Fill Transparency (%)"@ },
        l.language@ == if es { "Idioma"@ } else { "Language"@ },
        l.close@ == if es { "Cerrar"@ } else { "Close"@ },
{
    if es {
        SettingsLabels {
            title: "Configuración",
            radius: "Radio (px)",
            border: "Borde (px)",
            color: "Color",
            choose: "Elegir...",
            transparency: "Transparencia (%)",
            language: "Idioma",
            close: "Cerrar",
        }
    } else {
        SettingsLabels {
            title: "Settings",
            radius: "Radius (px)",
            border: "Border (px)",
            color: "Color",
            choose: "Choose...",
            transparency: "Fill Transparency (%)",
            language: "Language",
            close: "Close",
        }
    }
}

/// The entries of the language combo box, English first.
pub fn language_names() -> (names: [&'static str; 2])
    ensures
        names[0]@ == "English"@,
        names[1]@ == "Español"@,
{
    ["English", "Español"]
}

} // verus!
