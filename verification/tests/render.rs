use lumbus::render::{release_render_cache, RedrawTracker, RenderCache};

#[test]
fn redraw_only_on_change() {
    let mut t = RedrawTracker::new();
    assert!(t.needs_redraw(10, 20, 0, true));
    assert!(!t.needs_redraw(10, 20, 0, true));
    assert!(t.needs_redraw(11, 20, 0, true));
    assert!(t.needs_redraw(11, 21, 0, true));
    assert!(t.needs_redraw(11, 21, 1, true));
    assert!(t.needs_redraw(11, 21, 1, false));
    assert!(!t.needs_redraw(11, 21, 1, false));
    t.mark_dirty();
    assert!(t.needs_redraw(11, 21, 1, false));
    assert!(!t.dirty);
}

#[test]
fn cache_reused_for_same_size() {
    let mut c: RenderCache<String> = RenderCache::new();
    assert!(!c.prepare(800, 600));
    c.store("surface".to_string(), 800, 600);
    assert!(c.fits(800, 600));
    assert!(c.prepare(800, 600));
    assert_eq!(c.resources().map(|s| s.as_str()), Some("surface"));
    assert!(!c.prepare(1024, 768));
    assert!(c.resources().is_none());
}

#[test]
fn release_drops_resources() {
    let mut c: RenderCache<u32> = RenderCache::new();
    c.store(1, 2, 3);
    release_render_cache(&mut c);
    assert!(c.resources().is_none());
    assert!(!c.fits(2, 3));
}
