//! Persisted settings: the config record, its keys, and the in-memory cache.
//!
//! Settings are loaded from disk once, served from memory afterwards, and
//! written back only when the cache is flushed after a change. The numeric
//! settings are kept generic over their number type `R`; the front end
//! stores them as floating-point numbers.

use vstd::prelude::*;
use crate::drawing::{DISPLAY_MODE_CIRCLE, LANG_ES};

verus! {

/// A preference key.
#[derive(Debug, Clone, Copy, PartialEq, Eq, Structural)]
pub enum PrefKey {
    /// Circle radius in pixels.
    Radius,
    /// Border (stroke) width in pixels.
    Border,
    /// Stroke colour, red component.
    StrokeR,
    /// Stroke colour, green component.
    StrokeG,
    /// Stroke colour, blue component.
    StrokeB,
    /// Stroke colour, alpha component.
    StrokeA,
    /// Fill transparency in percent.
    FillTransparency,
    /// Interface language.
    Lang,
}

/// The persisted configuration record.
#[derive(Clone, Copy)]
pub struct Config<R> {
    pub radius: R,
    pub border_width: R,
    pub stroke_r: R,
    pub stroke_g: R,
    pub stroke_b: R,
    pub stroke_a: R,
    pub fill_transparency_pct: R,
    pub lang: i32,
}

/// The overlay's settings together with its run-time switches.
#[derive(Clone, Copy)]
pub struct OverlayState<R> {
    pub radius: R,
    pub border_width: R,
    pub stroke_r: R,
    pub stroke_g: R,
    pub stroke_b: R,
    pub stroke_a: R,
    pub fill_transparency_pct: R,
    pub lang: i32,
    pub overlay_enabled: bool,
    pub display_mode: i32,
}

impl<R: Copy> OverlayState<R> {
    /// Whether the interface language is Spanish.
    pub fn is_spanish(&self) -> (r: bool)
        ensures
            r == (self.lang == LANG_ES),
    {
        self.lang == LANG_ES
    }

    /// The stroke colour as an `(r, g, b, a)` tuple.
    pub fn stroke_color(&self) -> (c: (R, R, R, R))
        ensures
            c == (self.stroke_r, self.stroke_g, self.stroke_b, self.stroke_a),
    {
        (self.stroke_r, self.stroke_g, self.stroke_b, self.stroke_a)
    }
}

/// The value a numeric preference reads from a config (`default` for a key
/// that is not numeric).
pub open spec fn spec_get_double<R>(c: Config<R>, key: PrefKey, default: R) -> R {
    match key {
        PrefKey::Radius => c.radius,
        PrefKey::Border => c.border_width,
        PrefKey::StrokeR => c.stroke_r,
        PrefKey::StrokeG => c.stroke_g,
        PrefKey::StrokeB => c.stroke_b,
        PrefKey::StrokeA => c.stroke_a,
        PrefKey::FillTransparency => c.fill_transparency_pct,
        PrefKey::Lang => default,
    }
}

/// The value an integer preference reads from a config (`default` for a key
/// that is not an integer preference).
pub open spec fn spec_get_int<R>(c: Config<R>, key: PrefKey, default: i32) -> i32 {
    match key {
        PrefKey::Lang => c.lang,
        _ => default,
    }
}

/// The config after writing an integer preference (`None`: the key is not
/// an integer preference and nothing is written).
pub open spec fn spec_set_int<R>(c: Config<R>, key: PrefKey, val: i32) -> Option<Config<R>> {
    match key {
        PrefKey::Lang => Some(Config { lang: val, ..c }),
        _ => None,
    }
}

/// The config after writing a numeric preference (`None`: the key is not
/// numeric and nothing is written).
pub open spec fn spec_set_double<R>(c: Config<R>, key: PrefKey, val: R) -> Option<Config<R>> {
    match key {
        PrefKey::Radius => Some(Config { radius: val, ..c }),
        PrefKey::Border => Some(Config { border_width: val, ..c }),
        PrefKey::StrokeR => Some(Config { stroke_r: val, ..c }),
        PrefKey::StrokeG => Some(Config { stroke_g: val, ..c }),
        PrefKey::StrokeB => Some(Config { stroke_b: val, ..c }),
        PrefKey::StrokeA => Some(Config { stroke_a: val, ..c }),
        PrefKey::FillTransparency => Some(Config { fill_transparency_pct: val, ..c }),
        PrefKey::Lang => None,
    }
}

/// The config record holding a state's persisted settings.
pub open spec fn spec_config_of<R>(s: OverlayState<R>) -> Config<R> {
    Config {
        radius: s.radius,
        border_width: s.border_width,
        stroke_r: s.stroke_r,
        stroke_g: s.stroke_g,
        stroke_b: s.stroke_b,
        stroke_a: s.stroke_a,
        fill_transparency_pct: s.fill_transparency_pct,
        lang: s.lang,
    }
}

/// The state built from a config: overlay on, circle mode.
pub open spec fn spec_state_of<R>(c: Config<R>) -> OverlayState<R> {
    OverlayState {
        radius: c.radius,
        border_width: c.border_width,
        stroke_r: c.stroke_r,
        stroke_g: c.stroke_g,
        stroke_b: c.stroke_b,
        stroke_a: c.stroke_a,
        fill_transparency_pct: c.fill_transparency_pct,
        lang: c.lang,
        overlay_enabled: true,
        display_mode: DISPLAY_MODE_CIRCLE,
    }
}

/// The overlay state described by a config, before its values are
/// validated: overlay enabled, circle mode.
pub fn state_from_config<R: Copy>(config: &Config<R>) -> (s: OverlayState<R>)
    ensures
        s == spec_state_of(*config),
        s.radius == config.radius,
        s.border_width == config.border_width,
        s.stroke_r == config.stroke_r,
        s.stroke_g == config.stroke_g,
        s.stroke_b == config.stroke_b,
        s.stroke_a == config.stroke_a,
        s.fill_transparency_pct == config.fill_transparency_pct,
        s.lang == config.lang,
        s.overlay_enabled,
        s.display_mode == DISPLAY_MODE_CIRCLE,
{
    OverlayState {
        radius: config.radius,
        border_width: config.border_width,
        stroke_r: config.stroke_r,
        stroke_g: config.stroke_g,
        stroke_b: config.stroke_b,
        stroke_a: config.stroke_a,
        fill_transparency_pct: config.fill_transparency_pct,
        lang: config.lang,
        overlay_enabled: true,
        display_mode: DISPLAY_MODE_CIRCLE,
    }
}

/// The config record holding a state's persisted settings.
pub fn config_from_state<R: Copy>(state: &OverlayState<R>) -> (c: Config<R>)
    ensures
        c == spec_config_of(*state),
        c.radius == state.radius,
        c.border_width == state.border_width,
        c.stroke_r == state.stroke_r,
        c.stroke_g == state.stroke_g,
        c.stroke_b == state.stroke_b,
        c.stroke_a == state.stroke_a,
        c.fill_transparency_pct == state.fill_transparency_pct,
        c.lang == state.lang,
{
    Config {
        radius: state.radius,
        border_width: state.border_width,
        stroke_r: state.stroke_r,
        stroke_g: state.stroke_g,
        stroke_b: state.stroke_b,
        stroke_a: state.stroke_a,
        fill_transparency_pct: state.fill_transparency_pct,
        lang: state.lang,
    }
}

/// In-memory config cache: loaded once, written to disk on flush when
/// something changed.
pub struct ConfigCache<R> {
    cached: Option<Config<R>>,
    dirty: bool,
}

impl<R> ConfigCache<R> {
    /// A dirty cache always holds a config.
    #[verifier::type_invariant]
    spec fn inv(self) -> bool {
        self.dirty ==> self.cached is Some
    }
}

/// The cache's contents: the cached config (if loaded) and whether it holds
/// changes not yet written to disk.
pub struct CacheView<R> {
    pub cached: Option<Config<R>>,
    pub dirty: bool,
}

impl<R> View for ConfigCache<R> {
    type V = CacheView<R>;

    closed spec fn view(&self) -> CacheView<R> {
        CacheView { cached: self.cached, dirty: self.dirty }
    }
}

/// The cache after the config read from disk is offered to it: it is taken
/// only when nothing is cached yet.
pub open spec fn spec_after_load<R>(v: CacheView<R>, from_disk: Config<R>) -> CacheView<R> {
    CacheView {
        cached: match v.cached {
            Some(c) => Some(c),
            None => Some(from_disk),
        },
        dirty: v.dirty,
    }
}

/// The cache after a config is stored in it.
pub open spec fn spec_after_set<R>(v: CacheView<R>, c: Config<R>) -> CacheView<R> {
    CacheView { cached: Some(c), dirty: true }
}

/// What a flush writes to disk: the cached config when it is dirty.
pub open spec fn spec_flush_output<R>(v: CacheView<R>) -> Option<Config<R>> {
    if v.dirty {
        v.cached
    } else {
        None
    }
}

/// The cache after a flush: same config, clean.
pub open spec fn spec_after_flush<R>(v: CacheView<R>) -> CacheView<R> {
    CacheView { cached: v.cached, dirty: false }
}

impl<R: Copy> ConfigCache<R> {
    /// An empty, clean cache.
    pub fn new() -> (c: Self)
        ensures
            c@ == (CacheView::<R> { cached: None, dirty: false }),
    {
        ConfigCache { cached: None, dirty: false }
    }

    /// Whether the config still has to be read from disk.
    pub fn needs_load(&self) -> (r: bool)
        ensures
            r == (self@.cached is None),
    {
        self.cached.is_none()
    }

    /// Whether the cache holds changes not yet written to disk.
    pub fn is_dirty(&self) -> (r: bool)
        ensures
            r == self@.dirty,
    {
        self.dirty
    }

    /// Offer the config read from disk; it is kept only when nothing is
    /// cached yet.
    pub fn load(&mut self, from_disk: Config<R>)
        ensures
            final(self)@ == spec_after_load(old(self)@, from_disk),
    {
        if self.cached.is_none() {
            self.cached = Some(from_disk);
        }
    }

    /// The cached config.
    pub fn get_config(&self) -> (c: Config<R>)
        requires
            self@.cached is Some,
        ensures
            c == self@.cached->0,
    {
        self.cached.unwrap()
    }

    /// Replace the cached config and mark it dirty.
    pub fn set_config(&mut self, config: Config<R>)
        ensures
            final(self)@ == spec_after_set(old(self)@, config),
    {
        self.cached = Some(config);
        self.dirty = true;
    }
}

/// Flush the cache: when it is dirty, returns the config to write to disk
/// and marks the cache clean; otherwise returns `None` and changes nothing.
pub fn flush_config<R: Copy>(cache: &mut ConfigCache<R>) -> (to_write: Option<Config<R>>)
    ensures
        to_write == spec_flush_output(old(cache)@),
        final(cache)@ == spec_after_flush(old(cache)@),
        old(cache)@.dirty ==> to_write is Some,
{
    proof {
        use_type_invariant(&*cache);
    }
    if !cache.dirty {
        return None;
    }
    let to_write = cache.cached;
    cache.dirty = false;
    to_write
}

/// Save a state's settings into the cache (written to disk on flush).
pub fn save_state<R: Copy>(cache: &mut ConfigCache<R>, state: &OverlayState<R>)
    ensures
        final(cache)@ == spec_after_set(old(cache)@, spec_config_of(*state)),
        final(cache)@.dirty,
        final(cache)@.cached == Some(spec_config_of(*state)),
{
    let config = config_from_state(state);
    cache.set_config(config);
}

/// Read an integer preference from the cache; `default` for a key that is
/// not an integer preference.
pub fn prefs_get_int<R: Copy>(cache: &ConfigCache<R>, key: PrefKey, default: i32) -> (v: i32)
    requires
        cache@.cached is Some,
    ensures
        v == spec_get_int(cache@.cached->0, key, default),
{
    let config = cache.get_config();
    match key {
        PrefKey::Lang => config.lang,
        _ => default,
    }
}

/// Write an integer preference to the cache; a key that is not an integer
/// preference changes nothing.
pub fn prefs_set_int<R: Copy>(cache: &mut ConfigCache<R>, key: PrefKey, val: i32)
    requires
        old(cache)@.cached is Some,
    ensures
        spec_set_int(old(cache)@.cached->0, key, val) matches Some(c) ==> final(cache)@
            == spec_after_set(old(cache)@, c),
        spec_set_int(old(cache)@.cached->0, key, val) is None ==> final(cache)@ == old(cache)@,
        key == PrefKey::Lang ==> {
            &&& final(cache)@.dirty
            &&& final(cache)@.cached == Some(Config { lang: val, ..old(cache)@.cached->0 })
            &&& forall|d: i32| #[trigger] spec_get_int(final(cache)@.cached->0, PrefKey::Lang, d) == val
        },
        key != PrefKey::Lang ==> final(cache)@ == old(cache)@,
{
    let mut config = cache.get_config();
    match key {
        PrefKey::Lang => {
            config.lang = val;
        },
        _ => {
            return ;
        },
    }
    cache.set_config(config);
}

/// Read a numeric preference from the cache; `default` for a key that is
/// not numeric.
pub fn prefs_get_double<R: Copy>(cache: &ConfigCache<R>, key: PrefKey, default: R) -> (v: R)
    requires
        cache@.cached is Some,
    ensures
        v == spec_get_double(cache@.cached->0, key, default),
{
    let config = cache.get_config();
    match key {
        PrefKey::Radius => config.radius,
        PrefKey::Border => config.border_width,
        PrefKey::StrokeR => config.stroke_r,
        PrefKey::StrokeG => config.stroke_g,
        PrefKey::StrokeB => config.stroke_b,
        PrefKey::StrokeA => config.stroke_a,
        PrefKey::FillTransparency => config.fill_transparency_pct,
        PrefKey::Lang => default,
    }
}

/// Write a numeric preference to the cache; a key that is not numeric
/// changes nothing.
pub fn prefs_set_double<R: Copy>(cache: &mut ConfigCache<R>, key: PrefKey, val: R)
    requires
        old(cache)@.cached is Some,
    ensures
        spec_set_double(old(cache)@.cached->0, key, val) matches Some(c) ==> final(cache)@
            == spec_after_set(old(cache)@, c),
        spec_set_double(old(cache)@.cached->0, key, val) is None ==> final(cache)@ == old(cache)@,
{
    let mut config = cache.get_config();
    match key {
        PrefKey::Radius => config.radius = val,
        PrefKey::Border => config.border_width = val,
        PrefKey::StrokeR => config.stroke_r = val,
        PrefKey::StrokeG => config.stroke_g = val,
        PrefKey::StrokeB => config.stroke_b = val,
        PrefKey::StrokeA => config.stroke_a = val,
        PrefKey::FillTransparency => config.fill_transparency_pct = val,
        PrefKey::Lang => {
            return ;
        },
    }
    cache.set_config(config);
}

/// Writing a numeric preference and reading it back gives the value written;
/// the other preferences, numeric or not, keep their values.
pub proof fn lemma_double_read_after_write<R>(
    c: Config<R>,
    key: PrefKey,
    other: PrefKey,
    val: R,
    default: R,
)
    requires
        key != PrefKey::Lang,
    ensures
        spec_set_double(c, key, val) is Some,
        spec_get_double(spec_set_double(c, key, val)->0, key, default) == val,
        other != key ==> spec_get_double(spec_set_double(c, key, val)->0, other, default)
            == spec_get_double(c, other, default),
        spec_set_double(c, key, val)->0.lang == c.lang,
{
}

/// The language is not a numeric preference: writing it as one changes
/// nothing and reading it as one gives the default.
pub proof fn lemma_lang_not_double<R>(c: Config<R>, val: R, default: R)
    ensures
        spec_set_double(c, PrefKey::Lang, val) is None,
        spec_get_double(c, PrefKey::Lang, default) == default,
{
}

/// Writing the language and reading it back gives the language written;
/// every numeric preference keeps its value. Only the language is an
/// integer preference.
pub proof fn lemma_int_read_after_write<R>(
    c: Config<R>,
    key: PrefKey,
    val: i32,
    other: PrefKey,
    default: R,
    int_default: i32,
)
    ensures
        spec_set_int(c, PrefKey::Lang, val) is Some,
        spec_get_int(spec_set_int(c, PrefKey::Lang, val)->0, PrefKey::Lang, int_default) == val,
        spec_get_double(spec_set_int(c, PrefKey::Lang, val)->0, other, default) == spec_get_double(
            c,
            other,
            default,
        ),
        key != PrefKey::Lang ==> spec_set_int(c, key, val) is None && spec_get_int(
            c,
            key,
            int_default,
        ) == int_default,
{
}

/// A flush writes the config most recently stored in the cache.
pub proof fn lemma_flush_writes_last_saved<R>(v: CacheView<R>, c: Config<R>)
    ensures
        spec_flush_output(spec_after_set(v, c)) == Some(c),
{
}

/// A flush right after a flush writes nothing, and flushing again leaves
/// the cache as it was.
pub proof fn lemma_flush_idempotent<R>(v: CacheView<R>)
    ensures
        spec_flush_output(spec_after_flush(v)) is None,
        spec_after_flush(spec_after_flush(v)) == spec_after_flush(v),
{
}

/// A flush changes what is written to disk, never what is read.
pub proof fn lemma_flush_keeps_config<R>(v: CacheView<R>)
    ensures
        spec_after_flush(v).cached == v.cached,
{
}

/// Once the cache holds a config, offering it the disk's config again
/// changes nothing: a saved change is never replaced by the old file.
pub proof fn lemma_load_never_overrides<R>(v: CacheView<R>, c: Config<R>, from_disk: Config<R>)
    ensures
        spec_after_load(spec_after_set(v, c), from_disk) == spec_after_set(v, c),
{
}

/// Saving a state and loading it back gives the same settings, with the
/// overlay enabled and in circle mode.
pub proof fn lemma_state_round_trip<R>(c: Config<R>, s: OverlayState<R>)
    ensures
        spec_config_of(spec_state_of(c)) == c,
        spec_state_of(spec_config_of(s)).radius == s.radius,
        spec_state_of(spec_config_of(s)).border_width == s.border_width,
        spec_state_of(spec_config_of(s)).fill_transparency_pct == s.fill_transparency_pct,
        spec_state_of(spec_config_of(s)).lang == s.lang,
        (s.overlay_enabled && s.display_mode == DISPLAY_MODE_CIRCLE) ==> spec_state_of(
            spec_config_of(s),
        ) == s,
{
}

/// Saving a state writes nothing yet: the cache holds the state's settings
/// and is dirty. Reading the config back (whatever the file on disk holds)
/// gives a state with the saved settings, the overlay enabled and in circle
/// mode; the file receives those settings at the next flush.
pub proof fn lemma_save_state_then_reload<R>(v: CacheView<R>, s: OverlayState<R>, from_disk: Config<R>)
    ensures
        ({
            let saved = spec_after_set(v, spec_config_of(s));
            let reloaded = spec_state_of(spec_after_load(saved, from_disk).cached->0);
            &&& saved.dirty
            &&& spec_after_load(saved, from_disk) == saved
            &&& reloaded == (OverlayState {
                overlay_enabled: true,
                display_mode: DISPLAY_MODE_CIRCLE,
                ..s
            })
            &&& spec_flush_output(saved) == Some(spec_config_of(s))
        }),
{
}

/// Loading a state from a config takes each persisted setting from the
/// config entry of the same name, as the preference readers see it, with the
/// overlay on and in circle mode; saving a state writes each of its settings
/// to the entry of the same name.
pub proof fn lemma_fields_map_by_name<R>(c: Config<R>, s: OverlayState<R>, d: R, di: i32)
    ensures
        spec_state_of(c).radius == spec_get_double(c, PrefKey::Radius, d),
        spec_state_of(c).border_width == spec_get_double(c, PrefKey::Border, d),
        spec_state_of(c).stroke_r == spec_get_double(c, PrefKey::StrokeR, d),
        spec_state_of(c).stroke_g == spec_get_double(c, PrefKey::StrokeG, d),
        spec_state_of(c).stroke_b == spec_get_double(c, PrefKey::StrokeB, d),
        spec_state_of(c).stroke_a == spec_get_double(c, PrefKey::StrokeA, d),
        spec_state_of(c).fill_transparency_pct == spec_get_double(c, PrefKey::FillTransparency, d),
        spec_state_of(c).lang == spec_get_int(c, PrefKey::Lang, di),
        spec_state_of(c).overlay_enabled,
        spec_state_of(c).display_mode == DISPLAY_MODE_CIRCLE,
        spec_state_of(c).radius == c.radius && spec_state_of(c).border_width == c.border_width,
        spec_state_of(c).stroke_r == c.stroke_r && spec_state_of(c).stroke_g == c.stroke_g,
        spec_state_of(c).stroke_b == c.stroke_b && spec_state_of(c).stroke_a == c.stroke_a,
        spec_state_of(c).fill_transparency_pct == c.fill_transparency_pct,
        spec_state_of(c).lang == c.lang,
        spec_config_of(s).border_width == s.border_width,
        spec_config_of(s).fill_transparency_pct == s.fill_transparency_pct,
        spec_get_double(spec_config_of(s), PrefKey::Radius, d) == s.radius,
        spec_get_double(spec_config_of(s), PrefKey::Border, d) == s.border_width,
        spec_get_double(spec_config_of(s), PrefKey::StrokeR, d) == s.stroke_r,
        spec_get_double(spec_config_of(s), PrefKey::StrokeG, d) == s.stroke_g,
        spec_get_double(spec_config_of(s), PrefKey::StrokeB, d) == s.stroke_b,
        spec_get_double(spec_config_of(s), PrefKey::StrokeA, d) == s.stroke_a,
        spec_get_double(spec_config_of(s), PrefKey::FillTransparency, d) == s.fill_transparency_pct,
        spec_get_int(spec_config_of(s), PrefKey::Lang, di) == s.lang,
{
}

} // verus!
