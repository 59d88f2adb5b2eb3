//! Work over every overlay window: running an action on each one, and
//! copying the visual preferences of one overlay to all of them.

use vstd::prelude::*;
use crate::config::{OverlayState, spec_config_of};

verus! {

/// Run `f` on every overlay window, in order.
pub fn apply_to_all_windows<W: Copy, F: Fn(W)>(windows: &Vec<W>, f: F)
    requires
        forall|i: int| 0 <= i < windows.len() ==> f.requires((#[trigger] windows[i],)),
    ensures
        forall|i: int| 0 <= i < windows.len() ==> f.ensures((#[trigger] windows[i],), ()),
{
    let n = windows.len();
    let mut i: usize = 0;
    while i < n
        invariant
            n == windows.len(),
            i <= n,
            forall|j: int| 0 <= j < windows.len() ==> f.requires((#[trigger] windows[j],)),
            forall|j: int| 0 <= j < i ==> f.ensures((#[trigger] windows[j],), ()),
        decreases n - i,
    {
        let w = windows[i];
        f(w);
        i = i + 1;
    }
}

/// A window's state with the visual preferences (size, border, colour, fill
/// transparency and language) taken from `source`; its switches (enabled,
/// display mode) stay its own.
pub open spec fn with_visual_prefs<R>(s: OverlayState<R>, source: OverlayState<R>) -> OverlayState<R> {
    OverlayState {
        radius: source.radius,
        border_width: source.border_width,
        stroke_r: source.stroke_r,
        stroke_g: source.stroke_g,
        stroke_b: source.stroke_b,
        stroke_a: source.stroke_a,
        fill_transparency_pct: source.fill_transparency_pct,
        lang: source.lang,
        ..s
    }
}

/// Copy the visual preferences of `source` to every overlay window.
pub fn sync_visual_prefs_to_all_windows<R: Copy>(
    windows: &mut Vec<OverlayState<R>>,
    source: &OverlayState<R>,
)
    ensures
        final(windows).len() == old(windows).len(),
        forall|i: int|
            0 <= i < old(windows).len() ==> #[trigger] final(windows)@[i] == with_visual_prefs(
                old(windows)@[i],
                *source,
            ),
        forall|i: int|
            0 <= i < old(windows).len() ==> spec_config_of(#[trigger] final(windows)@[i])
                == spec_config_of(*source) && final(windows)@[i].overlay_enabled == old(
                windows,
            )@[i].overlay_enabled && final(windows)@[i].display_mode == old(
                windows,
            )@[i].display_mode,
{
    let n = windows.len();
    let mut i: usize = 0;
    while i < n
        invariant
            n == windows.len(),
            n == old(windows).len(),
            i <= n,
            forall|j: int|
                0 <= j < i ==> #[trigger] windows@[j] == with_visual_prefs(old(windows)@[j], *source),
            forall|j: int| i <= j < n ==> #[trigger] windows@[j] == old(windows)@[j],
        decreases n - i,
    {
        let s = windows[i];
        let synced = OverlayState {
            radius: source.radius,
            border_width: source.border_width,
            stroke_r: source.stroke_r,
            stroke_g: source.stroke_g,
            stroke_b: source.stroke_b,
            stroke_a: source.stroke_a,
            fill_transparency_pct: source.fill_transparency_pct,
            lang: source.lang,
            overlay_enabled: s.overlay_enabled,
            display_mode: s.display_mode,
        };
        windows.set(i, synced);
        i = i + 1;
    }
}

/// Guards a window of which at most one may be open at a time.
pub struct SingleInstance {
    pub open: bool,
}

/// A request to open the window: it is granted exactly when none is open,
/// and afterwards the window counts as open.
pub open spec fn spec_try_open(g: SingleInstance) -> (SingleInstance, bool) {
    (SingleInstance { open: true }, !g.open)
}

/// The window has closed.
pub open spec fn spec_close(g: SingleInstance) -> SingleInstance {
    SingleInstance { open: false }
}

impl SingleInstance {
    /// Nothing open.
    pub fn new() -> (g: Self)
        ensures
            !g.open,
    {
        SingleInstance { open: false }
    }

    /// Claim the window: succeeds exactly when none is open, and leaves it
    /// marked open either way.
    pub fn try_open(&mut self) -> (claimed: bool)
        ensures
            (*final(self), claimed) == spec_try_open(*old(self)),
    {
        let claimed = !self.open;
        self.open = true;
        claimed
    }

    /// The window has closed.
    pub fn close(&mut self)
        ensures
            *final(self) == spec_close(*old(self)),
    {
        self.open = false;
    }
}

/// While the window is open a second request to open it is refused; once it
/// has closed, the next request is granted.
pub proof fn lemma_single_instance(g: SingleInstance)
    ensures
        !spec_try_open(spec_try_open(g).0).1,
        spec_try_open(spec_close(spec_try_open(g).0)).1,
{
}

/// After syncing, a window has every visual preference of the source (its
/// size, border, stroke colour, fill transparency and language, which are
/// exactly the settings that are saved) and keeps its own switches.
pub proof fn lemma_sync_takes_all_visual_prefs<R>(s: OverlayState<R>, source: OverlayState<R>)
    ensures
        with_visual_prefs(s, source).radius == source.radius,
        with_visual_prefs(s, source).border_width == source.border_width,
        with_visual_prefs(s, source).stroke_r == source.stroke_r,
        with_visual_prefs(s, source).stroke_g == source.stroke_g,
        with_visual_prefs(s, source).stroke_b == source.stroke_b,
        with_visual_prefs(s, source).stroke_a == source.stroke_a,
        with_visual_prefs(s, source).fill_transparency_pct == source.fill_transparency_pct,
        with_visual_prefs(s, source).lang == source.lang,
        with_visual_prefs(s, source).overlay_enabled == s.overlay_enabled,
        with_visual_prefs(s, source).display_mode == s.display_mode,
        spec_config_of(with_visual_prefs(s, source)) == spec_config_of(source),
        with_visual_prefs(with_visual_prefs(s, source), source) == with_visual_prefs(s, source),
{
}

} // verus!
