use std::cell::RefCell;

use lumbus::config::OverlayState;
use lumbus::drawing::{DISPLAY_MODE_CIRCLE, DISPLAY_MODE_RIGHT, LANG_EN, LANG_ES};
use lumbus::overlay_windows::{apply_to_all_windows, sync_visual_prefs_to_all_windows, SingleInstance};

fn state(radius: f64, lang: i32, enabled: bool, mode: i32) -> OverlayState<f64> {
    OverlayState {
        radius,
        border_width: radius / 10.0,
        stroke_r: 0.1,
        stroke_g: 0.2,
        stroke_b: 0.3,
        stroke_a: 1.0,
        fill_transparency_pct: 100.0,
        lang,
        overlay_enabled: enabled,
        display_mode: mode,
    }
}

#[test]
fn apply_visits_every_window_in_order() {
    let seen = RefCell::new(Vec::new());
    apply_to_all_windows(&vec![7usize, 3, 9], |w| seen.borrow_mut().push(w));
    assert_eq!(seen.into_inner(), vec![7, 3, 9]);
}

#[test]
fn apply_on_no_windows_does_nothing() {
    let seen = RefCell::new(Vec::new());
    apply_to_all_windows(&Vec::<usize>::new(), |w| seen.borrow_mut().push(w));
    assert!(seen.into_inner().is_empty());
}

#[test]
fn sync_copies_visual_prefs_and_keeps_switches() {
    let source = state(40.0, LANG_ES, true, DISPLAY_MODE_CIRCLE);
    let mut windows = vec![
        state(10.0, LANG_EN, false, DISPLAY_MODE_RIGHT),
        state(20.0, LANG_EN, true, DISPLAY_MODE_CIRCLE),
    ];
    sync_visual_prefs_to_all_windows(&mut windows, &source);
    assert_eq!(windows.len(), 2);
    for w in &windows {
        assert_eq!(w.radius, 40.0);
        assert_eq!(w.border_width, 4.0);
        assert_eq!(w.lang, LANG_ES);
    }
    assert!(!windows[0].overlay_enabled);
    assert_eq!(windows[0].display_mode, DISPLAY_MODE_RIGHT);
    assert!(windows[1].overlay_enabled);
}

#[test]
fn second_open_is_refused_until_closed() {
    let mut guard = SingleInstance::new();
    assert!(guard.try_open());
    assert!(!guard.try_open());
    guard.close();
    assert!(guard.try_open());
}
