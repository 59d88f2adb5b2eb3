//! The quit confirmation dialog: how its two buttons answer keys and
//! clicks, and what happens once it closes.
//!
//! The dialog opens with the Quit button focused. Return activates the
//! focused button, Escape always cancels, Tab toggles the focus and the
//! arrow keys move it to the button on that side. A click on a button
//! activates it.

use vstd::prelude::*;

verus! {

/// Key code of Return.
pub const KEY_RETURN: u16 = 36;
/// Key code of Escape.
pub const KEY_ESCAPE: u16 = 53;
/// Key code of Tab.
pub const KEY_TAB: u16 = 48;
/// Key code of the left arrow.
pub const KEY_LEFT: u16 = 123;
/// Key code of the right arrow.
pub const KEY_RIGHT: u16 = 124;

/// The user's answer so far.
#[derive(Debug, Clone, Copy, PartialEq, Eq, Structural)]
pub enum QuitResponse {
    /// Not answered yet.
    Pending,
    /// Quit the application.
    Quit,
    /// Keep running.
    Cancel,
}

/// One of the dialog's buttons: Cancel on the left, Quit on the right.
#[derive(Debug, Clone, Copy, PartialEq, Eq, Structural)]
pub enum QuitButton {
    Quit,
    Cancel,
}

/// What the front end does with a key or click event.
#[derive(Debug, Clone, Copy, PartialEq, Eq, Structural)]
pub enum DialogEvent {
    /// The dialog is answered: stop the modal loop; the event is consumed.
    StopModal,
    /// The focus moved to this button: recolour both buttons; consumed.
    Refocus(QuitButton),
    /// The event is consumed with no visible change.
    Consumed,
    /// The event is passed on unchanged.
    PassThrough,
}

/// The dialog's state.
#[derive(Debug, Clone, Copy, PartialEq, Eq, Structural)]
pub struct QuitDialog {
    pub response: QuitResponse,
    pub focus: QuitButton,
}

/// The answer given by activating a button.
pub open spec fn spec_response_of(b: QuitButton) -> QuitResponse {
    match b {
        QuitButton::Quit => QuitResponse::Quit,
        QuitButton::Cancel => QuitResponse::Cancel,
    }
}

/// The focus after a focus key: left goes to Cancel, right to Quit, Tab
/// to the other button.
pub open spec fn spec_focus_after(focus: QuitButton, keycode: u16) -> QuitButton {
    if keycode == KEY_LEFT {
        QuitButton::Cancel
    } else if keycode == KEY_RIGHT {
        QuitButton::Quit
    } else {
        match focus {
            QuitButton::Quit => QuitButton::Cancel,
            QuitButton::Cancel => QuitButton::Quit,
        }
    }
}

/// The dialog after a key, and what is done with the key.
pub open spec fn spec_on_key(d: QuitDialog, keycode: u16) -> (QuitDialog, DialogEvent) {
    if keycode == KEY_RETURN {
        (QuitDialog { response: spec_response_of(d.focus), ..d }, DialogEvent::StopModal)
    } else if keycode == KEY_ESCAPE {
        (QuitDialog { response: QuitResponse::Cancel, ..d }, DialogEvent::StopModal)
    } else if keycode == KEY_TAB || keycode == KEY_LEFT || keycode == KEY_RIGHT {
        let f = spec_focus_after(d.focus, keycode);
        if f != d.focus {
            (QuitDialog { focus: f, ..d }, DialogEvent::Refocus(f))
        } else {
            (d, DialogEvent::Consumed)
        }
    } else {
        (d, DialogEvent::PassThrough)
    }
}

impl QuitDialog {
    /// A fresh dialog: unanswered, Quit focused.
    pub fn new() -> (d: Self)
        ensures
            d == (QuitDialog { response: QuitResponse::Pending, focus: QuitButton::Quit }),
    {
        QuitDialog { response: QuitResponse::Pending, focus: QuitButton::Quit }
    }

    /// Handle a key-down event.
    pub fn on_key(&mut self, keycode: u16) -> (e: DialogEvent)
        ensures
            (*final(self), e) == spec_on_key(*old(self), keycode),
    {
        if keycode == KEY_RETURN {
            self.response = match self.focus {
                QuitButton::Quit => QuitResponse::Quit,
                QuitButton::Cancel => QuitResponse::Cancel,
            };
            DialogEvent::StopModal
        } else if keycode == KEY_ESCAPE {
            self.response = QuitResponse::Cancel;
            DialogEvent::StopModal
        } else if keycode == KEY_TAB || keycode == KEY_LEFT || keycode == KEY_RIGHT {
            let new_focus = if keycode == KEY_LEFT {
                QuitButton::Cancel
            } else if keycode == KEY_RIGHT {
                QuitButton::Quit
            } else {
                match self.focus {
                    QuitButton::Quit => QuitButton::Cancel,
                    QuitButton::Cancel => QuitButton::Quit,
                }
            };
            if new_focus != self.focus {
                self.focus = new_focus;
                DialogEvent::Refocus(new_focus)
            } else {
                DialogEvent::Consumed
            }
        } else {
            DialogEvent::PassThrough
        }
    }

    /// Handle a left click; `hit` is the button under the pointer, if any.
    pub fn on_click(&mut self, hit: Option<QuitButton>) -> (e: DialogEvent)
        ensures
            hit matches Some(b) ==> *final(self) == (QuitDialog {
                response: spec_response_of(b),
                ..*old(self)
            }) && e == DialogEvent::StopModal,
            hit is None ==> *final(self) == *old(self) && e == DialogEvent::PassThrough,
    {
        match hit {
            Some(QuitButton::Quit) => {
                self.response = QuitResponse::Quit;
                DialogEvent::StopModal
            },
            Some(QuitButton::Cancel) => {
                self.response = QuitResponse::Cancel;
                DialogEvent::StopModal
            },
            None => DialogEvent::PassThrough,
        }
    }
}

/// What happens once the dialog has closed.
#[derive(Debug, Clone, Copy, PartialEq, Eq, Structural)]
pub enum QuitOutcome {
    /// Terminate the application.
    Terminate,
    /// Keep running: restore the overlay when `restore_overlay`, put the
    /// overlay windows back on top and post `QuitCancelled`.
    Resume { restore_overlay: bool },
}

/// Decide what follows the quit dialog: terminate when the user chose
/// Quit; otherwise resume, re-enabling the overlay if it was enabled
/// before the dialog opened.
pub fn confirm_and_maybe_quit(response: QuitResponse, was_enabled: bool) -> (o: QuitOutcome)
    ensures
        response == QuitResponse::Quit ==> o == QuitOutcome::Terminate,
        response != QuitResponse::Quit ==> o == (QuitOutcome::Resume {
            restore_overlay: was_enabled,
        }),
{
    match response {
        QuitResponse::Quit => QuitOutcome::Terminate,
        _ => QuitOutcome::Resume { restore_overlay: was_enabled },
    }
}

/// Escape always cancels, whatever has the focus; Return activates the
/// focused button; every key that ends the dialog leaves an answer.
pub proof fn lemma_keys_that_answer(d: QuitDialog)
    ensures
        spec_on_key(d, KEY_ESCAPE).0.response == QuitResponse::Cancel,
        spec_on_key(d, KEY_RETURN).0.response == spec_response_of(d.focus),
        forall|k: u16| #[trigger] spec_on_key(d, k).1 == DialogEvent::StopModal ==> spec_on_key(
            d,
            k,
        ).0.response != QuitResponse::Pending,
{
}

/// Moving the focus never answers the dialog; Tab twice gives back the
/// focus it started with; an arrow points at the button on its side.
pub proof fn lemma_focus_keys(d: QuitDialog)
    ensures
        spec_on_key(d, KEY_TAB).0.response == d.response,
        spec_on_key(d, KEY_LEFT).0.response == d.response,
        spec_on_key(d, KEY_RIGHT).0.response == d.response,
        spec_on_key(spec_on_key(d, KEY_TAB).0, KEY_TAB).0 == d,
        spec_on_key(d, KEY_LEFT).0.focus == QuitButton::Cancel,
        spec_on_key(d, KEY_RIGHT).0.focus == QuitButton::Quit,
{
}

/// Pressing Return on a fresh dialog quits; moving left first cancels.
pub proof fn lemma_default_is_quit()
    ensures
        spec_on_key(
            QuitDialog { response: QuitResponse::Pending, focus: QuitButton::Quit },
            KEY_RETURN,
        ).0.response == QuitResponse::Quit,
        spec_on_key(
            spec_on_key(
                QuitDialog { response: QuitResponse::Pending, focus: QuitButton::Quit },
                KEY_LEFT,
            ).0,
            KEY_RETURN,
        ).0.response == QuitResponse::Cancel,
{
}

/// The dialog after a sequence of keys: keys are handled one by one until
/// one answers the dialog; the keys after it are not read.
pub open spec fn spec_run_keys(d: QuitDialog, keys: Seq<u16>) -> QuitDialog
    decreases keys.len(),
{
    if keys.len() == 0 || d.response != QuitResponse::Pending {
        d
    } else {
        spec_run_keys(spec_on_key(d, keys[0]).0, keys.drop_first())
    }
}

/// Whether a key answers the dialog (Return or Escape).
pub open spec fn is_answer_key(k: u16) -> bool {
    k == KEY_RETURN || k == KEY_ESCAPE
}

/// The focus after a sequence of keys none of which answers the dialog:
/// Tab toggles it, Left sets Cancel, Right sets Quit, other keys leave it.
pub open spec fn spec_focus_after_keys(f: QuitButton, keys: Seq<u16>) -> QuitButton
    decreases keys.len(),
{
    if keys.len() == 0 {
        f
    } else {
        let k = keys[0];
        let next = if k == KEY_TAB || k == KEY_LEFT || k == KEY_RIGHT {
            spec_focus_after(f, k)
        } else {
            f
        };
        spec_focus_after_keys(next, keys.drop_first())
    }
}

/// Keys that do not answer the dialog leave it unanswered and only move the
/// focus, as `spec_focus_after_keys` says; what follows them is then read
/// from that focus.
pub proof fn lemma_keys_before_answer(d: QuitDialog, prefix: Seq<u16>, rest: Seq<u16>)
    requires
        d.response == QuitResponse::Pending,
        forall|i: int| 0 <= i < prefix.len() ==> !is_answer_key(#[trigger] prefix[i]),
    ensures
        spec_run_keys(d, prefix + rest) == spec_run_keys(
            QuitDialog {
                response: QuitResponse::Pending,
                focus: spec_focus_after_keys(d.focus, prefix),
            },
            rest,
        ),
    decreases prefix.len(),
{
    if prefix.len() == 0 {
        assert(prefix + rest =~= rest);
    } else {
        let k = prefix[0];
        assert(!is_answer_key(prefix[0]));
        let next = spec_on_key(d, k).0;
        assert((prefix + rest)[0] == k);
        assert((prefix + rest).drop_first() =~= prefix.drop_first() + rest);
        assert forall|i: int| 0 <= i < prefix.drop_first().len() implies !is_answer_key(
            #[trigger] prefix.drop_first()[i],
        ) by {
            assert(prefix.drop_first()[i] == prefix[i + 1]);
        }
        lemma_keys_before_answer(next, prefix.drop_first(), rest);
    }
}

/// Over a whole key sequence: with Return or Escape as the first answering
/// key `k`, the dialog's answer is Cancel for Escape and, for Return, the
/// button that has the focus after the keys before it; the keys after `k`
/// change nothing. Without an answering key the dialog stays unanswered.
pub proof fn lemma_key_sequence_outcome(
    d: QuitDialog,
    prefix: Seq<u16>,
    k: u16,
    rest: Seq<u16>,
)
    requires
        d.response == QuitResponse::Pending,
        forall|i: int| 0 <= i < prefix.len() ==> !is_answer_key(#[trigger] prefix[i]),
    ensures
        is_answer_key(k) ==> spec_run_keys(d, prefix.push(k) + rest).response == (if k
            == KEY_ESCAPE {
            QuitResponse::Cancel
        } else {
            spec_response_of(spec_focus_after_keys(d.focus, prefix))
        }),
        spec_run_keys(d, prefix).response == QuitResponse::Pending,
        spec_run_keys(d, prefix).focus == spec_focus_after_keys(d.focus, prefix),
{
    lemma_keys_before_answer(d, prefix, Seq::empty());
    assert(prefix + Seq::<u16>::empty() =~= prefix);
    let tail = seq![k] + rest;
    assert(prefix.push(k) + rest =~= prefix + tail);
    lemma_keys_before_answer(d, prefix, tail);
    let mid = QuitDialog {
        response: QuitResponse::Pending,
        focus: spec_focus_after_keys(d.focus, prefix),
    };
    assert(tail[0] == k);
    assert(tail.drop_first() =~= rest);
    if is_answer_key(k) {
        let after = spec_on_key(mid, k).0;
        assert(after.response != QuitResponse::Pending);
        assert(spec_run_keys(after, rest) == after);
    }
}

/// A fresh dialog answered by Return quits exactly when the focus is on
/// Quit after the keys before it; Escape at any point cancels.
pub proof fn lemma_fresh_dialog_keys(prefix: Seq<u16>, rest: Seq<u16>)
    requires
        forall|i: int| 0 <= i < prefix.len() ==> !is_answer_key(#[trigger] prefix[i]),
    ensures
        (spec_run_keys(
            QuitDialog { response: QuitResponse::Pending, focus: QuitButton::Quit },
            prefix.push(KEY_RETURN) + rest,
        ).response == QuitResponse::Quit) == (spec_focus_after_keys(QuitButton::Quit, prefix)
            == QuitButton::Quit),
        spec_run_keys(
            QuitDialog { response: QuitResponse::Pending, focus: QuitButton::Quit },
            prefix.push(KEY_ESCAPE) + rest,
        ).response == QuitResponse::Cancel,
{
    let d = QuitDialog { response: QuitResponse::Pending, focus: QuitButton::Quit };
    lemma_key_sequence_outcome(d, prefix, KEY_RETURN, rest);
    lemma_key_sequence_outcome(d, prefix, KEY_ESCAPE, rest);
}

} // verus!
