//! Which mark is drawn at the pointer: the circle, or a click letter.

use vstd::prelude::*;

verus! {

/// Display mode: plain circle.
pub const DISPLAY_MODE_CIRCLE: i32 = 0;
/// Display mode: left button held.
pub const DISPLAY_MODE_LEFT: i32 = 1;
/// Display mode: right button held.
pub const DISPLAY_MODE_RIGHT: i32 = 2;

/// Language code for English.
pub const LANG_EN: i32 = 0;
/// Language code for Spanish.
pub const LANG_ES: i32 = 1;

/// The letter to draw when a mouse button is pressed.
#[derive(Debug, Clone, Copy, PartialEq, Eq, Structural)]
pub enum ClickLetter {
    /// Left mouse button.
    Left,
    /// Right mouse button.
    Right,
}

/// The character shown for a click letter: `L`/`R` in English,
/// `I` (izquierdo) / `D` (derecho) in Spanish.
pub open spec fn letter_char(letter: ClickLetter, es: bool) -> char {
    match (letter, es) {
        (ClickLetter::Left, false) => 'L',
        (ClickLetter::Left, true) => 'I',
        (ClickLetter::Right, false) => 'R',
        (ClickLetter::Right, true) => 'D',
    }
}

impl ClickLetter {
    /// The character to render for this letter in the given language.
    pub fn as_char(self, es: bool) -> (c: char)
        ensures
            c == letter_char(self, es),
    {
        match (self, es) {
            (ClickLetter::Left, false) => 'L',
            (ClickLetter::Left, true) => 'I',
            (ClickLetter::Right, false) => 'R',
            (ClickLetter::Right, true) => 'D',
        }
    }

    /// The letter drawn for a display mode, or `None` when the circle is drawn.
    pub fn from_display_mode(mode: i32) -> (r: Option<ClickLetter>)
        ensures
            mode == DISPLAY_MODE_LEFT ==> r == Some(ClickLetter::Left),
            mode == DISPLAY_MODE_RIGHT ==> r == Some(ClickLetter::Right),
            mode != DISPLAY_MODE_LEFT && mode != DISPLAY_MODE_RIGHT ==> r is None,
    {
        if mode == DISPLAY_MODE_LEFT {
            Some(ClickLetter::Left)
        } else if mode == DISPLAY_MODE_RIGHT {
            Some(ClickLetter::Right)
        } else {
            None
        }
    }
}

} // verus!
