use lumbus::config::{
    config_from_state, flush_config, prefs_get_double, prefs_get_int, prefs_set_double,
    prefs_set_int, save_state, state_from_config, Config, ConfigCache, OverlayState, PrefKey,
};
use lumbus::drawing::{DISPLAY_MODE_CIRCLE, DISPLAY_MODE_LEFT, LANG_EN, LANG_ES};

fn sample() -> Config<f64> {
    Config {
        radius: 42.0,
        border_width: 3.0,
        stroke_r: 0.5,
        stroke_g: 0.6,
        stroke_b: 0.7,
        stroke_a: 1.0,
        fill_transparency_pct: 50.0,
        lang: LANG_ES,
    }
}

fn loaded() -> ConfigCache<f64> {
    let mut cache = ConfigCache::new();
    assert!(cache.needs_load());
    cache.load(sample());
    assert!(!cache.needs_load());
    cache
}

#[test]
fn load_happens_once() {
    let mut cache = loaded();
    let mut other = sample();
    other.radius = 99.0;
    cache.load(other);
    assert_eq!(cache.get_config().radius, 42.0);
    assert!(!cache.is_dirty());
}

#[test]
fn clean_cache_flushes_nothing() {
    let mut cache = loaded();
    assert!(flush_config(&mut cache).is_none());
}

#[test]
fn flush_writes_last_change_once() {
    let mut cache = loaded();
    prefs_set_double(&mut cache, PrefKey::Radius, 60.0);
    prefs_set_double(&mut cache, PrefKey::Radius, 65.0);
    let written = flush_config(&mut cache).expect("dirty cache is written");
    assert_eq!(written.radius, 65.0);
    assert!(!cache.is_dirty());
    assert!(flush_config(&mut cache).is_none());
    // Reading still sees the change after the flush.
    assert_eq!(prefs_get_double(&cache, PrefKey::Radius, 0.0), 65.0);
}

#[test]
fn saved_change_survives_a_second_load() {
    let mut cache = loaded();
    prefs_set_int(&mut cache, PrefKey::Lang, LANG_EN);
    cache.load(sample());
    assert_eq!(prefs_get_int(&cache, PrefKey::Lang, -1), LANG_EN);
}

#[test]
fn double_prefs_read_their_fields() {
    let cache = loaded();
    assert_eq!(prefs_get_double(&cache, PrefKey::Radius, -1.0), 42.0);
    assert_eq!(prefs_get_double(&cache, PrefKey::Border, -1.0), 3.0);
    assert_eq!(prefs_get_double(&cache, PrefKey::StrokeR, -1.0), 0.5);
    assert_eq!(prefs_get_double(&cache, PrefKey::StrokeG, -1.0), 0.6);
    assert_eq!(prefs_get_double(&cache, PrefKey::StrokeB, -1.0), 0.7);
    assert_eq!(prefs_get_double(&cache, PrefKey::StrokeA, -1.0), 1.0);
    assert_eq!(prefs_get_double(&cache, PrefKey::FillTransparency, -1.0), 50.0);
    assert_eq!(prefs_get_double(&cache, PrefKey::Lang, -1.0), -1.0);
}

#[test]
fn double_write_of_lang_is_ignored() {
    let mut cache = loaded();
    prefs_set_double(&mut cache, PrefKey::Lang, 3.0);
    assert!(!cache.is_dirty());
    assert_eq!(prefs_get_int(&cache, PrefKey::Lang, -1), LANG_ES);
}

#[test]
fn each_double_write_changes_one_field() {
    let mut cache = loaded();
    prefs_set_double(&mut cache, PrefKey::StrokeG, 0.25);
    let c = cache.get_config();
    assert_eq!(c.stroke_g, 0.25);
    assert_eq!(c.stroke_r, 0.5);
    assert_eq!(c.stroke_b, 0.7);
    assert_eq!(c.lang, LANG_ES);
    assert!(cache.is_dirty());
}

#[test]
fn int_prefs_only_know_the_language() {
    let mut cache = loaded();
    assert_eq!(prefs_get_int(&cache, PrefKey::Lang, 7), LANG_ES);
    assert_eq!(prefs_get_int(&cache, PrefKey::Radius, 7), 7);
    prefs_set_int(&mut cache, PrefKey::Border, 9);
    assert!(!cache.is_dirty());
    prefs_set_int(&mut cache, PrefKey::Lang, LANG_EN);
    assert!(cache.is_dirty());
    assert_eq!(prefs_get_int(&cache, PrefKey::Lang, 7), LANG_EN);
}

#[test]
fn save_state_stores_persisted_fields() {
    let mut cache = loaded();
    let mut state = state_from_config(&sample());
    state.radius = 100.0;
    state.overlay_enabled = false;
    state.display_mode = DISPLAY_MODE_LEFT;
    save_state(&mut cache, &state);
    assert!(cache.is_dirty());
    let c = cache.get_config();
    assert_eq!(c.radius, 100.0);
    assert_eq!(c.fill_transparency_pct, 50.0);
}

#[test]
fn state_from_config_enables_circle() {
    let s: OverlayState<f64> = state_from_config(&sample());
    assert!(s.overlay_enabled);
    assert_eq!(s.display_mode, DISPLAY_MODE_CIRCLE);
    assert_eq!(s.radius, 42.0);
    assert!(s.is_spanish());
    assert_eq!(s.stroke_color(), (0.5, 0.6, 0.7, 1.0));
    let back = config_from_state(&s);
    assert_eq!(back.radius, 42.0);
    assert_eq!(back.lang, LANG_ES);
}

#[test]
fn english_state_is_not_spanish() {
    let mut c = sample();
    c.lang = LANG_EN;
    assert!(!state_from_config(&c).is_spanish());
}
