//! The settings-changed callback: the settings window calls it after every
//! change so the overlay can pick the new values up.

use vstd::prelude::*;

verus! {

/// Holds the callback to run when a setting changes, if one is set.
pub struct SettingsChangedHook<F> {
    callback: Option<F>,
}

impl<F> SettingsChangedHook<F> {
    /// The callback held.
    pub closed spec fn spec_callback(&self) -> Option<F> {
        self.callback
    }

    /// No callback set.
    pub fn new() -> (h: Self)
        ensures
            h.spec_callback() is None,
    {
        SettingsChangedHook { callback: None }
    }
}

/// Set (or replace) the callback run when a setting changes.
pub fn set_on_settings_changed<F: Fn()>(hook: &mut SettingsChangedHook<F>, callback: F)
    ensures
        final(hook).spec_callback() == Some(callback),
{
    hook.callback = Some(callback);
}

/// Run the callback, if one is set.
pub fn notify_settings_changed<F: Fn()>(hook: &SettingsChangedHook<F>)
    requires
        hook.spec_callback() matches Some(f) ==> f.requires(()),
    ensures
        hook.spec_callback() matches Some(f) ==> f.ensures((), ()),
{
    match &hook.callback {
        Some(f) => f(),
        None => {},
    }
}

} // verus!
