use lumbus::quit_dialog::{QuitDialog, QuitResponse, QuitButton, QuitOutcome, DialogEvent, confirm_and_maybe_quit, KEY_RETURN, KEY_ESCAPE, KEY_LEFT, KEY_RIGHT, KEY_TAB};

#[test]
fn return_on_fresh_dialog_quits() {
    let mut d = QuitDialog::new();
    assert_eq!(d.on_key(KEY_RETURN), DialogEvent::StopModal);
    assert_eq!(d.response, QuitResponse::Quit);
}

#[test]
fn escape_cancels() {
    let mut d = QuitDialog::new();
    assert_eq!(d.on_key(KEY_ESCAPE), DialogEvent::StopModal);
    assert_eq!(d.response, QuitResponse::Cancel);
}

#[test]
fn focus_moves_with_tab_and_arrows() {
    let mut d = QuitDialog::new();
    assert_eq!(d.on_key(KEY_RIGHT), DialogEvent::Consumed);
    assert_eq!(d.on_key(KEY_LEFT), DialogEvent::Refocus(QuitButton::Cancel));
    assert_eq!(d.on_key(KEY_LEFT), DialogEvent::Consumed);
    assert_eq!(d.on_key(KEY_TAB), DialogEvent::Refocus(QuitButton::Quit));
    assert_eq!(d.on_key(KEY_TAB), DialogEvent::Refocus(QuitButton::Cancel));
    assert_eq!(d.response, QuitResponse::Pending);
    assert_eq!(d.on_key(KEY_RETURN), DialogEvent::StopModal);
    assert_eq!(d.response, QuitResponse::Cancel);
}

#[test]
fn other_keys_pass_through() {
    let mut d = QuitDialog::new();
    assert_eq!(d.on_key(0), DialogEvent::PassThrough);
    assert_eq!(d, QuitDialog::new());
}

#[test]
fn clicks() {
    let mut d = QuitDialog::new();
    assert_eq!(d.on_click(None), DialogEvent::PassThrough);
    assert_eq!(d.on_click(Some(QuitButton::Cancel)), DialogEvent::StopModal);
    assert_eq!(d.response, QuitResponse::Cancel);
    let mut d = QuitDialog::new();
    assert_eq!(d.on_click(Some(QuitButton::Quit)), DialogEvent::StopModal);
    assert_eq!(d.response, QuitResponse::Quit);
}

#[test]
fn outcome_after_dialog() {
    assert_eq!(confirm_and_maybe_quit(QuitResponse::Quit, true), QuitOutcome::Terminate);
    assert_eq!(confirm_and_maybe_quit(QuitResponse::Cancel, true), QuitOutcome::Resume { restore_overlay: true });
    assert_eq!(confirm_and_maybe_quit(QuitResponse::Cancel, false), QuitOutcome::Resume { restore_overlay: false });
    assert_eq!(confirm_and_maybe_quit(QuitResponse::Pending, true), QuitOutcome::Resume { restore_overlay: true });
}

/// Feed keys until one answers the dialog, as the modal loop does.
fn run_keys(keys: &[u16]) -> (QuitDialog, usize) {
    let mut d = QuitDialog::new();
    let mut read = 0;
    for &k in keys {
        read += 1;
        if d.on_key(k) == DialogEvent::StopModal {
            break;
        }
    }
    (d, read)
}

#[test]
fn key_sequence_answer_follows_focus() {
    let (d, read) = run_keys(&[KEY_TAB, 0, KEY_TAB, KEY_RETURN, KEY_LEFT, KEY_RETURN]);
    assert_eq!(d.response, QuitResponse::Quit);
    assert_eq!(read, 4);
    let (d, _) = run_keys(&[KEY_RIGHT, KEY_LEFT, KEY_RETURN]);
    assert_eq!(d.response, QuitResponse::Cancel);
    let (d, _) = run_keys(&[KEY_TAB, KEY_TAB, KEY_ESCAPE, KEY_RETURN]);
    assert_eq!(d.response, QuitResponse::Cancel);
    let (d, read) = run_keys(&[KEY_TAB, 12, KEY_RIGHT]);
    assert_eq!(d.response, QuitResponse::Pending);
    assert_eq!(d.focus, QuitButton::Quit);
    assert_eq!(read, 3);
}
