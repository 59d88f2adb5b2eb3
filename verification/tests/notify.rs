use std::cell::Cell;
use std::rc::Rc;

use lumbus::notify::{notify_settings_changed, set_on_settings_changed, SettingsChangedHook};

#[test]
fn callback_runs_once_per_notification() {
    let count = Rc::new(Cell::new(0));
    let mut hook = SettingsChangedHook::new();
    let c = count.clone();
    set_on_settings_changed(&mut hook, move || c.set(c.get() + 1));
    notify_settings_changed(&hook);
    notify_settings_changed(&hook);
    assert_eq!(count.get(), 2);
}

#[test]
fn notification_without_callback_does_nothing() {
    let hook: SettingsChangedHook<fn()> = SettingsChangedHook::new();
    notify_settings_changed(&hook);
}
