//! Decisions of the settings window: decoding control notifications,
//! snapping slider positions, and the packed values the controls take.

use vstd::prelude::*;
use crate::config::PrefKey;
use crate::drawing::{LANG_EN, LANG_ES};

verus! {

/// Control id of the radius slider.
pub const ID_RADIUS_SLIDER: i32 = 102;
/// Control id of the radius value label.
pub const ID_RADIUS_VALUE: i32 = 103;
/// Control id of the border slider.
pub const ID_BORDER_SLIDER: i32 = 104;
/// Control id of the border value label.
pub const ID_BORDER_VALUE: i32 = 105;
/// Control id of the colour button.
pub const ID_COLOR_BUTTON: i32 = 106;
/// Control id of the transparency slider.
pub const ID_TRANSP_SLIDER: i32 = 107;
/// Control id of the transparency value label.
pub const ID_TRANSP_VALUE: i32 = 108;
/// Control id of the language combo box.
pub const ID_LANG_COMBO: i32 = 109;
/// Control id of the close button.
pub const ID_CLOSE_BUTTON: i32 = 110;
/// Combo-box notification: the selection changed.
pub const CBN_SELCHANGE: u32 = 1;

/// Smallest radius, in pixels.
pub const MIN_RADIUS: i32 = 5;
/// Largest radius, in pixels.
pub const MAX_RADIUS: i32 = 200;
/// Smallest border width, in pixels.
pub const MIN_BORDER: i32 = 1;
/// Largest border width, in pixels.
pub const MAX_BORDER: i32 = 20;
/// Smallest fill transparency, in percent.
pub const MIN_TRANSPARENCY: i32 = 0;
/// Largest fill transparency, in percent.
pub const MAX_TRANSPARENCY: i32 = 100;

/// Integer division rounding toward zero, as Rust's `/` does.
pub open spec fn trunc_div(x: int, d: int) -> int {
    if x >= 0 {
        x / d
    } else {
        -((-x) / d)
    }
}

/// A slider position moved to a multiple of five: `((pos + 2) / 5) * 5`
/// with Rust's division, i.e. to the nearest multiple for `pos >= -2`.
pub open spec fn spec_snap5(pos: int) -> int {
    trunc_div(pos + 2, 5) * 5
}

/// Snap a slider position to a multiple of five (the 5 px radius steps and
/// the 5 % transparency steps).
pub fn snap_to_five(pos: i32) -> (snapped: i32)
    requires
        pos <= i32::MAX - 2,
    ensures
        snapped == spec_snap5(pos as int),
{
    let x = pos + 2;
    if x >= 0 {
        (x / 5) * 5
    } else {
        -(((-x) / 5) * 5)
    }
}

/// For positions from -2 up, the snapped value is the multiple of five
/// nearest to the position.
pub proof fn lemma_snap_nearest(pos: int)
    requires
        pos >= -2,
    ensures
        spec_snap5(pos) % 5 == 0,
        pos - 2 <= spec_snap5(pos) <= pos + 2,
{
}

/// Snapping is idempotent: a multiple of five stays where it is.
pub proof fn lemma_snap_idempotent(k: int)
    requires
        k >= 0,
    ensures
        spec_snap5(5 * k) == 5 * k,
{
}

/// The control id carried in a command's `wparam`: its low 16 bits.
pub fn command_control_id(wparam: usize) -> (id: i32)
    ensures
        id == wparam as int % 0x10000,
{
    let low = wparam & 0xFFFF;
    assert(low == wparam % 0x10000) by (bit_vector)
        requires
            low == wparam & 0xFFFF,
    ;
    low as i32
}

/// The notification code carried in a command's `wparam`: bits 16 to 31.
pub fn command_notification(wparam: usize) -> (code: u32)
    ensures
        code == (wparam as int / 0x10000) % 0x10000,
{
    let high = (wparam >> 16) & 0xFFFF;
    assert(high == (wparam / 0x10000) % 0x10000) by (bit_vector)
        requires
            high == (wparam >> 16) & 0xFFFF,
    ;
    high as u32
}

/// The packed range a trackbar takes: the maximum shifted into the high
/// word, or-ed with the minimum in the low word. For a minimum that fits the
/// low word and a maximum that fits the high word this is
/// `max * 0x10000 + min`.
pub fn slider_range(min: i32, max: i32) -> (packed: isize)
    ensures
        packed == (((max as isize) << 16usize) | (min as isize)),
        0 <= min <= 0xFFFF && 0 <= max <= 0x7FFF ==> packed == max as int * 0x10000 + min as int,
{
    let hi: isize = (max as isize) << 16usize;
    let lo: isize = min as isize;
    let packed: isize = hi | lo;
    if 0 <= min && min <= 0xFFFF && 0 <= max && max <= 0x7FFF {
        assert(packed == max as int * 0x10000 + min as int) by (bit_vector)
            requires
                hi == (max as isize) << 16usize,
                lo == min as isize,
                packed == hi | lo,
                0 <= min <= 0xFFFF,
                0 <= max <= 0x7FFF,
        ;
    }
    packed
}

/// A colour as the `0x00BBGGRR` value of a Win32 `COLORREF`.
pub open spec fn spec_colorref(r: u8, g: u8, b: u8) -> int {
    r as int + g as int * 0x100 + b as int * 0x10000
}

/// Pack red, green and blue into a `COLORREF` value.
pub fn pack_colorref(r: u8, g: u8, b: u8) -> (c: u32)
    ensures
        c == spec_colorref(r, g, b),
{
    let (r32, g32, b32) = (r as u32, g as u32, b as u32);
    let c = r32 | (g32 << 8) | (b32 << 16);
    assert(c == r32 + g32 * 0x100 + b32 * 0x10000) by (bit_vector)
        requires
            c == r32 | (g32 << 8) | (b32 << 16),
            r32 < 256,
            g32 < 256,
            b32 < 256,
    ;
    c
}

/// Red, green and blue of a `COLORREF` value (the top byte is ignored).
pub fn unpack_colorref(c: u32) -> (rgb: (u8, u8, u8))
    ensures
        rgb.0 == c as int % 0x100,
        rgb.1 == (c as int / 0x100) % 0x100,
        rgb.2 == (c as int / 0x10000) % 0x100,
{
    let r = c & 0xFF;
    let g = (c >> 8) & 0xFF;
    let b = (c >> 16) & 0xFF;
    assert(r == c % 0x100 && g == (c / 0x100) % 0x100 && b == (c / 0x10000) % 0x100)
        by (bit_vector)
        requires
            r == c & 0xFF,
            g == (c >> 8) & 0xFF,
            b == (c >> 16) & 0xFF,
    ;
    (r as u8, g as u8, b as u8)
}

/// Unpacking a packed colour gives back its components.
pub proof fn lemma_colorref_round_trip(r: u8, g: u8, b: u8)
    ensures
        spec_colorref(r, g, b) % 0x100 == r,
        (spec_colorref(r, g, b) / 0x100) % 0x100 == g,
        (spec_colorref(r, g, b) / 0x10000) % 0x100 == b,
{
    assert(spec_colorref(r, g, b) % 0x100 == r) by (nonlinear_arith)
        requires
            r < 256,
            g < 256,
            b < 256,
    ;
    assert((spec_colorref(r, g, b) / 0x100) % 0x100 == g) by (nonlinear_arith)
        requires
            r < 256,
            g < 256,
            b < 256,
    ;
    assert((spec_colorref(r, g, b) / 0x10000) % 0x100 == b) by (nonlinear_arith)
        requires
            r < 256,
            g < 256,
            b < 256,
    ;
}

/// The language chosen by a combo-box selection: the second entry is
/// Spanish, anything else English.
pub fn lang_from_selection(selection: i32) -> (lang: i32)
    ensures
        lang == if selection == 1 { LANG_ES } else { LANG_EN },
{
    if selection == 1 {
        LANG_ES
    } else {
        LANG_EN
    }
}

/// The combo-box entry that shows a language: 1 for Spanish, 0 otherwise.
pub fn selection_for_lang(lang: i32) -> (selection: usize)
    ensures
        selection == if lang == LANG_ES { 1usize } else { 0usize },
{
    if lang == LANG_ES {
        1
    } else {
        0
    }
}

/// What a command from a settings control asks for.
#[derive(Debug, Clone, Copy, PartialEq, Eq, Structural)]
pub enum CommandAction {
    /// Close the settings window.
    Close,
    /// Open the colour picker.
    PickColor,
    /// Read the language combo's selection and apply it.
    ApplyLanguageSelection,
    /// Nothing to do.
    Ignore,
}

/// The action for a command from control `control_id` with notification
/// `notification`.
pub fn command_action(control_id: i32, notification: u32) -> (a: CommandAction)
    ensures
        a == (if control_id == ID_CLOSE_BUTTON {
            CommandAction::Close
        } else if control_id == ID_COLOR_BUTTON {
            CommandAction::PickColor
        } else if control_id == ID_LANG_COMBO && notification == CBN_SELCHANGE {
            CommandAction::ApplyLanguageSelection
        } else {
            CommandAction::Ignore
        }),
{
    if control_id == ID_CLOSE_BUTTON {
        CommandAction::Close
    } else if control_id == ID_COLOR_BUTTON {
        CommandAction::PickColor
    } else if control_id == ID_LANG_COMBO && notification == CBN_SELCHANGE {
        CommandAction::ApplyLanguageSelection
    } else {
        CommandAction::Ignore
    }
}

/// What a slider movement changes: the preference, its new value, and
/// whether the slider must be moved to the snapped position.
#[derive(Debug, Clone, Copy, PartialEq, Eq, Structural)]
pub struct SliderChange {
    pub key: PrefKey,
    pub value: i32,
    pub moved: bool,
}

/// The change a slider at position `pos` makes, or `None` when the control
/// is not one of the settings sliders. Radius and transparency snap to
/// multiples of five; the border takes the position as it is.
pub fn slider_change(control_id: i32, pos: i32) -> (c: Option<SliderChange>)
    requires
        pos <= i32::MAX - 2,
    ensures
        control_id == ID_RADIUS_SLIDER ==> c == Some(
            SliderChange {
                key: PrefKey::Radius,
                value: spec_snap5(pos as int) as i32,
                moved: spec_snap5(pos as int) != pos,
            },
        ),
        control_id == ID_BORDER_SLIDER ==> c == Some(
            SliderChange { key: PrefKey::Border, value: pos, moved: false },
        ),
        control_id == ID_TRANSP_SLIDER ==> c == Some(
            SliderChange {
                key: PrefKey::FillTransparency,
                value: spec_snap5(pos as int) as i32,
                moved: spec_snap5(pos as int) != pos,
            },
        ),
        control_id != ID_RADIUS_SLIDER && control_id != ID_BORDER_SLIDER && control_id
            != ID_TRANSP_SLIDER ==> c is None,
{
    if control_id == ID_RADIUS_SLIDER {
        let snapped = snap_to_five(pos);
        Some(SliderChange { key: PrefKey::Radius, value: snapped, moved: snapped != pos })
    } else if control_id == ID_BORDER_SLIDER {
        Some(SliderChange { key: PrefKey::Border, value: pos, moved: false })
    } else if control_id == ID_TRANSP_SLIDER {
        let snapped = snap_to_five(pos);
        Some(
            SliderChange {
                key: PrefKey::FillTransparency,
                value: snapped,
                moved: snapped != pos,
            },
        )
    } else {
        None
    }
}

} // verus!
