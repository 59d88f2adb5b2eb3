//! Frame decisions of the Windows overlay renderer: whether a frame must be
//! drawn, which letter it shows, and when cached drawing resources can be
//! reused.

use vstd::prelude::*;
use crate::drawing::{ClickLetter, letter_char, LANG_ES, DISPLAY_MODE_LEFT, DISPLAY_MODE_RIGHT};

verus! {

/// What was on screen at the last redraw, and whether a redraw is forced.
#[derive(Debug, Clone, Copy, PartialEq, Eq, Structural)]
pub struct RedrawTracker {
    /// A redraw is forced (settings changed).
    pub dirty: bool,
    pub last_cursor_x: i32,
    pub last_cursor_y: i32,
    pub last_display_mode: i32,
    pub last_visible: bool,
}

/// Whether a frame with this cursor position, mode and visibility differs
/// from the last one drawn (or a redraw is forced).
pub open spec fn spec_changed(t: RedrawTracker, x: i32, y: i32, mode: i32, visible: bool) -> bool {
    t.dirty || x != t.last_cursor_x || y != t.last_cursor_y || mode != t.last_display_mode
        || visible != t.last_visible
}

impl RedrawTracker {
    /// Nothing drawn yet: all fields zero or false.
    pub fn new() -> (t: Self)
        ensures
            t == (RedrawTracker {
                dirty: false,
                last_cursor_x: 0,
                last_cursor_y: 0,
                last_display_mode: 0,
                last_visible: false,
            }),
    {
        RedrawTracker {
            dirty: false,
            last_cursor_x: 0,
            last_cursor_y: 0,
            last_display_mode: 0,
            last_visible: false,
        }
    }

    /// Force the next frame to be drawn.
    pub fn mark_dirty(&mut self)
        ensures
            *final(self) == (RedrawTracker { dirty: true, ..*old(self) }),
    {
        self.dirty = true;
    }

    /// Decide whether to draw a frame. When something changed, records the
    /// frame as drawn and clears the forced redraw; otherwise changes
    /// nothing.
    pub fn needs_redraw(&mut self, x: i32, y: i32, mode: i32, visible: bool) -> (redraw: bool)
        ensures
            redraw == spec_changed(*old(self), x, y, mode, visible),
            redraw ==> *final(self) == (RedrawTracker {
                dirty: false,
                last_cursor_x: x,
                last_cursor_y: y,
                last_display_mode: mode,
                last_visible: visible,
            }),
            !redraw ==> *final(self) == *old(self),
    {
        let changed = self.dirty || x != self.last_cursor_x || y != self.last_cursor_y || mode
            != self.last_display_mode || visible != self.last_visible;
        if changed {
            self.last_cursor_x = x;
            self.last_cursor_y = y;
            self.last_display_mode = mode;
            self.last_visible = visible;
            self.dirty = false;
        }
        changed
    }
}

/// After a frame is drawn, the same frame is not drawn again until
/// something changes or a redraw is forced.
pub proof fn lemma_no_redraw_without_change(x: i32, y: i32, mode: i32, visible: bool)
    ensures
        !spec_changed(
            RedrawTracker {
                dirty: false,
                last_cursor_x: x,
                last_cursor_y: y,
                last_display_mode: mode,
                last_visible: visible,
            },
            x,
            y,
            mode,
            visible,
        ),
        spec_changed(
            RedrawTracker {
                dirty: true,
                last_cursor_x: x,
                last_cursor_y: y,
                last_display_mode: mode,
                last_visible: visible,
            },
            x,
            y,
            mode,
            visible,
        ),
{
}

/// The letter the overlay shows for a display mode and language, or `None`
/// when it shows the circle.
pub open spec fn spec_overlay_letter(mode: i32, lang: i32) -> Option<char> {
    if mode == DISPLAY_MODE_LEFT {
        Some(letter_char(ClickLetter::Left, lang == LANG_ES))
    } else if mode == DISPLAY_MODE_RIGHT {
        Some(letter_char(ClickLetter::Right, lang == LANG_ES))
    } else {
        None
    }
}

/// The letter the overlay shows for a display mode and language:
/// `L`/`R` in English, `I`/`D` in Spanish; `None` for the circle.
pub fn overlay_letter(mode: i32, lang: i32) -> (c: Option<char>)
    ensures
        c == spec_overlay_letter(mode, lang),
{
    match ClickLetter::from_display_mode(mode) {
        Some(letter) => Some(letter.as_char(lang == LANG_ES)),
        None => None,
    }
}

/// Drawing resources kept between frames, with the surface size they were
/// made for.
pub struct RenderCache<T> {
    entry: Option<(T, i32, i32)>,
}

impl<T> RenderCache<T> {
    /// Whether resources are held.
    pub closed spec fn spec_holds(&self) -> bool {
        self.entry is Some
    }

    /// The size the held resources were made for.
    pub closed spec fn spec_size(&self) -> (i32, i32) {
        match self.entry {
            Some((_, w, h)) => (w, h),
            None => (0, 0),
        }
    }

    /// The held resources.
    pub closed spec fn spec_resources(&self) -> T {
        match self.entry {
            Some((r, _, _)) => r,
            None => arbitrary(),
        }
    }

    /// No resources held.
    pub fn new() -> (c: Self)
        ensures
            !c.spec_holds(),
    {
        RenderCache { entry: None }
    }

    /// Whether the held resources fit a surface of this size.
    pub fn fits(&self, width: i32, height: i32) -> (r: bool)
        ensures
            r == (self.spec_holds() && self.spec_size() == (width, height)),
    {
        match &self.entry {
            Some((_, w, h)) => *w == width && *h == height,
            None => false,
        }
    }

    /// Prepare for a frame of this size: keeps the resources when they fit
    /// (returns `true`), otherwise releases them (returns `false`) so the
    /// caller creates new ones.
    pub fn prepare(&mut self, width: i32, height: i32) -> (reused: bool)
        ensures
            reused == (old(self).spec_holds() && old(self).spec_size() == (width, height)),
            reused ==> *final(self) == *old(self),
            !reused ==> !final(self).spec_holds(),
    {
        if self.fits(width, height) {
            true
        } else {
            self.entry = None;
            false
        }
    }

    /// Keep resources made for a surface of this size.
    pub fn store(&mut self, resources: T, width: i32, height: i32)
        ensures
            final(self).spec_holds(),
            final(self).spec_resources() == resources,
            final(self).spec_size() == (width, height),
    {
        self.entry = Some((resources, width, height));
    }

    /// The held resources.
    pub fn resources(&self) -> (r: Option<&T>)
        ensures
            r is Some == self.spec_holds(),
            r matches Some(x) ==> *x == self.spec_resources(),
    {
        match &self.entry {
            Some((res, _, _)) => Some(res),
            None => None,
        }
    }
}

/// Release the cached drawing resources (at exit).
pub fn release_render_cache<T>(cache: &mut RenderCache<T>)
    ensures
        !final(cache).spec_holds(),
{
    cache.entry = None;
}

} // verus!
