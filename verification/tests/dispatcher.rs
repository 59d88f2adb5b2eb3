use lumbus::events::{AppEvent, DispatchAction, DispatchStep, Dispatcher};

#[test]
fn test_module_compiles() {
    // Smoke test that the dispatcher module is usable
    let _dispatcher = Dispatcher::new();
}

#[test]
fn test_reinstall_required_events() {
    assert!(AppEvent::SettingsClosed.requires_hotkey_reinstall());
    assert!(AppEvent::QuitCancelled.requires_hotkey_reinstall());
    assert!(AppEvent::HelpClosed.requires_hotkey_reinstall());
    assert!(AppEvent::ReinstallHotkeys.requires_hotkey_reinstall());
    assert!(!AppEvent::ToggleOverlay.requires_hotkey_reinstall());
    assert!(!AppEvent::OpenSettings.requires_hotkey_reinstall());
    assert!(!AppEvent::RequestQuit.requires_hotkey_reinstall());
    assert!(!AppEvent::ShowAbout.requires_hotkey_reinstall());
    assert!(!AppEvent::ShowHelp.requires_hotkey_reinstall());
}

#[test]
fn modal_events_are_settings_quit_and_help() {
    assert!(AppEvent::OpenSettings.is_modal());
    assert!(AppEvent::RequestQuit.is_modal());
    assert!(AppEvent::ShowHelp.is_modal());
    assert!(!AppEvent::ShowAbout.is_modal());
    assert!(!AppEvent::ToggleOverlay.is_modal());
    assert!(!AppEvent::HelpClosed.is_modal());
}

#[test]
fn actions_for_events() {
    assert_eq!(AppEvent::ToggleOverlay.action(), DispatchAction::RequestToggle);
    assert_eq!(AppEvent::OpenSettings.action(), DispatchAction::OpenSettings);
    assert_eq!(AppEvent::RequestQuit.action(), DispatchAction::ConfirmQuit);
    assert_eq!(AppEvent::ShowAbout.action(), DispatchAction::ShowAbout);
    assert_eq!(AppEvent::ShowHelp.action(), DispatchAction::ShowHelp);
    for e in [
        AppEvent::SettingsClosed,
        AppEvent::QuitCancelled,
        AppEvent::HelpClosed,
        AppEvent::ReinstallHotkeys,
    ] {
        assert_eq!(e.action(), DispatchAction::ReinstallHotkeys);
    }
}

#[test]
fn queue_without_modal_performs_everything() {
    let mut d = Dispatcher::new();
    let q = vec![AppEvent::ToggleOverlay, AppEvent::ShowAbout, AppEvent::SettingsClosed];
    let done = d.dispatch_queue(&q).unwrap();
    assert_eq!(
        done,
        vec![DispatchAction::RequestToggle, DispatchAction::ShowAbout, DispatchAction::ReinstallHotkeys]
    );
    assert!(!d.is_busy());
}

#[test]
fn repeated_settings_hotkey_opens_one_window() {
    let mut d = Dispatcher::new();
    let q = vec![
        AppEvent::ToggleOverlay,
        AppEvent::OpenSettings,
        AppEvent::OpenSettings,
        AppEvent::OpenSettings,
        AppEvent::ToggleOverlay,
    ];
    let done = d.dispatch_queue(&q).unwrap();
    assert_eq!(done, vec![DispatchAction::RequestToggle, DispatchAction::OpenSettings]);
}

#[test]
fn empty_queue_performs_nothing() {
    let mut d = Dispatcher::new();
    assert_eq!(d.dispatch_queue(&vec![]).unwrap(), vec![]);
}

#[test]
fn tick_during_session_is_skipped() {
    let mut d = Dispatcher::new();
    assert!(d.try_begin());
    assert!(d.is_busy());
    // A timer tick arriving under the modal finds the guard held.
    assert!(!d.try_begin());
    assert_eq!(d.dispatch_queue(&vec![AppEvent::ShowHelp]), None);
    assert_eq!(
        d.next_step(Some(AppEvent::ShowHelp)),
        DispatchStep::Perform(DispatchAction::ShowHelp)
    );
    // Posted while the help was open: drained.
    assert_eq!(
        d.next_step(Some(AppEvent::HelpClosed)),
        DispatchStep::Discard { unexpected: true }
    );
    assert_eq!(
        d.next_step(Some(AppEvent::ShowHelp)),
        DispatchStep::Discard { unexpected: false }
    );
    assert_eq!(d.next_step(None), DispatchStep::Finish);
    assert!(!d.is_busy());
    assert!(d.try_begin());
}
