//! Application events and the dispatcher that turns them into actions.
//!
//! Events are posted by menus, hotkeys and dialogs and drained from the
//! main-loop timer. The dispatcher runs one *session* per timer tick:
//! it takes events one by one and performs the action of each, until the
//! queue is empty or a modal (blocking) action has run. After a modal
//! action it drains and discards whatever accumulated while the modal was
//! open, so that a hotkey pressed repeatedly opens one window, not several.
//! A guard makes a tick that arrives while a session is running (the run
//! loop keeps firing timers under a modal) skip instead of dispatching.

use vstd::prelude::*;

verus! {

/// An event posted to the application's event bus.
#[derive(Debug, Clone, Copy, PartialEq, Eq, Structural)]
pub enum AppEvent {
    /// Toggle the overlay's visibility.
    ToggleOverlay,
    /// Open the settings window (modal).
    OpenSettings,
    /// Ask whether to quit (modal).
    RequestQuit,
    /// Show the About panel (not modal).
    ShowAbout,
    /// Show the keyboard-shortcut help (modal).
    ShowHelp,
    /// The settings window was closed.
    SettingsClosed,
    /// The user cancelled quitting.
    QuitCancelled,
    /// The help overlay was closed.
    HelpClosed,
    /// Hotkeys should be installed again.
    ReinstallHotkeys,
}

/// What the front end does for one event.
#[derive(Debug, Clone, Copy, PartialEq, Eq, Structural)]
pub enum DispatchAction {
    /// Ask the overlay view to toggle (debounced there).
    RequestToggle,
    /// Open the settings window; blocks until it closes.
    OpenSettings,
    /// Show the quit confirmation; blocks until answered.
    ConfirmQuit,
    /// Bring the app forward and show the standard About panel.
    ShowAbout,
    /// Show the help overlay; blocks until dismissed.
    ShowHelp,
    /// Install the global hotkeys again.
    ReinstallHotkeys,
}

/// The action performed for an event.
pub open spec fn spec_action_for(event: AppEvent) -> DispatchAction {
    match event {
        AppEvent::ToggleOverlay => DispatchAction::RequestToggle,
        AppEvent::OpenSettings => DispatchAction::OpenSettings,
        AppEvent::RequestQuit => DispatchAction::ConfirmQuit,
        AppEvent::ShowAbout => DispatchAction::ShowAbout,
        AppEvent::ShowHelp => DispatchAction::ShowHelp,
        AppEvent::SettingsClosed => DispatchAction::ReinstallHotkeys,
        AppEvent::QuitCancelled => DispatchAction::ReinstallHotkeys,
        AppEvent::HelpClosed => DispatchAction::ReinstallHotkeys,
        AppEvent::ReinstallHotkeys => DispatchAction::ReinstallHotkeys,
    }
}

/// Whether handling an event blocks in a modal run loop.
pub open spec fn spec_is_modal(event: AppEvent) -> bool {
    match event {
        AppEvent::OpenSettings | AppEvent::RequestQuit | AppEvent::ShowHelp => true,
        _ => false,
    }
}

/// Whether an event is one that opens a window (discarded silently when it
/// turns up after a modal has closed).
pub open spec fn spec_opens_window(event: AppEvent) -> bool {
    match event {
        AppEvent::OpenSettings | AppEvent::RequestQuit | AppEvent::ShowHelp
        | AppEvent::ShowAbout => true,
        _ => false,
    }
}

/// Whether an event means the global hotkeys must be installed again.
pub open spec fn spec_requires_hotkey_reinstall(event: AppEvent) -> bool {
    match event {
        AppEvent::SettingsClosed | AppEvent::QuitCancelled | AppEvent::HelpClosed
        | AppEvent::ReinstallHotkeys => true,
        _ => false,
    }
}

impl AppEvent {
    /// Whether this event means the global hotkeys must be installed again
    /// (after a dialog closed or when asked explicitly).
    pub fn requires_hotkey_reinstall(&self) -> (r: bool)
        ensures
            r == spec_requires_hotkey_reinstall(*self),
    {
        match self {
            AppEvent::SettingsClosed | AppEvent::QuitCancelled | AppEvent::HelpClosed
            | AppEvent::ReinstallHotkeys => true,
            _ => false,
        }
    }

    /// Whether handling this event blocks in a modal run loop.
    pub fn is_modal(&self) -> (r: bool)
        ensures
            r == spec_is_modal(*self),
    {
        match self {
            AppEvent::OpenSettings | AppEvent::RequestQuit | AppEvent::ShowHelp => true,
            _ => false,
        }
    }

    /// Whether this event opens a window.
    pub fn opens_window(&self) -> (r: bool)
        ensures
            r == spec_opens_window(*self),
    {
        match self {
            AppEvent::OpenSettings | AppEvent::RequestQuit | AppEvent::ShowHelp
            | AppEvent::ShowAbout => true,
            _ => false,
        }
    }

    /// The action the dispatcher performs for this event.
    pub fn action(&self) -> (a: DispatchAction)
        ensures
            a == spec_action_for(*self),
    {
        match self {
            AppEvent::ToggleOverlay => DispatchAction::RequestToggle,
            AppEvent::OpenSettings => DispatchAction::OpenSettings,
            AppEvent::RequestQuit => DispatchAction::ConfirmQuit,
            AppEvent::ShowAbout => DispatchAction::ShowAbout,
            AppEvent::ShowHelp => DispatchAction::ShowHelp,
            AppEvent::SettingsClosed | AppEvent::QuitCancelled | AppEvent::HelpClosed
            | AppEvent::ReinstallHotkeys => DispatchAction::ReinstallHotkeys,
        }
    }
}

/// Where the dispatcher is within a session.
#[derive(Debug, Clone, Copy, PartialEq, Eq, Structural)]
pub enum DispatchPhase {
    /// No session is running.
    Idle,
    /// Events are taken and their actions performed.
    Dispatching,
    /// A modal action has run; remaining events are discarded.
    Draining,
}

/// What the front end does after handing the dispatcher the next event
/// taken from the bus (or `None` when the bus is empty).
#[derive(Debug, Clone, Copy, PartialEq, Eq, Structural)]
pub enum DispatchStep {
    /// Perform this action, then take the next event.
    Perform(DispatchAction),
    /// Drop the event; `unexpected` when it was not a window-opening event
    /// (worth a debug log). Then take the next event.
    Discard { unexpected: bool },
    /// The session is over.
    Finish,
}

/// The dispatcher's state: the re-entry guard and the session phase.
pub struct Dispatcher {
    busy: bool,
    phase: DispatchPhase,
}

impl Dispatcher {
    /// Whether a session is running (the guard is held).
    pub closed spec fn spec_busy(&self) -> bool {
        self.busy
    }

    /// The phase of the running session.
    pub closed spec fn spec_phase(&self) -> DispatchPhase {
        self.phase
    }

    /// The guard is held exactly while a session is running.
    #[verifier::type_invariant]
    closed spec fn wf(&self) -> bool {
        self.busy <==> self.phase != DispatchPhase::Idle
    }

    /// A dispatcher with no session running.
    pub fn new() -> (d: Self)
        ensures
            !d.spec_busy(),
            d.spec_phase() == DispatchPhase::Idle,
    {
        Dispatcher { busy: false, phase: DispatchPhase::Idle }
    }

    /// Whether a session is running.
    pub fn is_busy(&self) -> (r: bool)
        ensures
            r == self.spec_busy(),
    {
        self.busy
    }

    /// Try to start a session. Returns `false`, changing nothing, when a
    /// session is already running (the caller skips this tick).
    pub fn try_begin(&mut self) -> (started: bool)
        ensures
            started == !old(self).spec_busy(),
            started ==> final(self).spec_phase() == DispatchPhase::Dispatching,
            !started ==> *final(self) == *old(self),
    {
        if self.busy {
            false
        } else {
            *self = Dispatcher { busy: true, phase: DispatchPhase::Dispatching };
            true
        }
    }

    /// Hand the dispatcher the next event taken from the bus.
    pub fn next_step(&mut self, event: Option<AppEvent>) -> (step: DispatchStep)
        ensures
            step == spec_step(old(self).spec_phase(), event),
            final(self).spec_phase() == spec_next_phase(old(self).spec_phase(), event),
    {
        match self.phase {
            DispatchPhase::Idle => DispatchStep::Finish,
            DispatchPhase::Dispatching => {
                match event {
                    None => {
                        *self = Dispatcher { busy: false, phase: DispatchPhase::Idle };
                        DispatchStep::Finish
                    },
                    Some(e) => {
                        if e.is_modal() {
                            *self = Dispatcher { busy: true, phase: DispatchPhase::Draining };
                        }
                        DispatchStep::Perform(e.action())
                    },
                }
            },
            DispatchPhase::Draining => {
                match event {
                    None => {
                        *self = Dispatcher { busy: false, phase: DispatchPhase::Idle };
                        DispatchStep::Finish
                    },
                    Some(e) => DispatchStep::Discard { unexpected: !e.opens_window() },
                }
            },
        }
    }
}

/// The step the dispatcher answers in a phase for the next event.
pub open spec fn spec_step(phase: DispatchPhase, event: Option<AppEvent>) -> DispatchStep {
    match (phase, event) {
        (DispatchPhase::Idle, _) => DispatchStep::Finish,
        (_, None) => DispatchStep::Finish,
        (DispatchPhase::Dispatching, Some(e)) => DispatchStep::Perform(spec_action_for(e)),
        (DispatchPhase::Draining, Some(e)) => DispatchStep::Discard {
            unexpected: !spec_opens_window(e),
        },
    }
}

/// The phase after a step.
pub open spec fn spec_next_phase(phase: DispatchPhase, event: Option<AppEvent>) -> DispatchPhase {
    match (phase, event) {
        (DispatchPhase::Idle, _) => DispatchPhase::Idle,
        (_, None) => DispatchPhase::Idle,
        (DispatchPhase::Dispatching, Some(e)) => if spec_is_modal(e) {
            DispatchPhase::Draining
        } else {
            DispatchPhase::Dispatching
        },
        (DispatchPhase::Draining, Some(_)) => DispatchPhase::Draining,
    }
}

/// `performed` is what one session does with the queue `events` when no
/// event is posted while it runs: the actions of the events, in order, up to
/// and including the first modal one; the rest are drained.
pub open spec fn is_session_result(events: Seq<AppEvent>, performed: Seq<DispatchAction>) -> bool {
    &&& performed.len() <= events.len()
    &&& forall|i: int| 0 <= i < performed.len() ==> performed[i] == spec_action_for(events[i])
    &&& forall|i: int| 0 <= i < performed.len() - 1 ==> !spec_is_modal(#[trigger] events[i])
    &&& (performed.len() == events.len() || (performed.len() > 0 && spec_is_modal(
        events[performed.len() - 1],
    )))
}

impl Dispatcher {
    /// Run one whole session over a queue whose contents are known up front
    /// (no event is posted while it runs). Returns the actions performed, in
    /// order, or `None` when a session was already running.
    pub fn dispatch_queue(&mut self, events: &Vec<AppEvent>) -> (performed: Option<
        Vec<DispatchAction>,
    >)
        ensures
            old(self).spec_busy() ==> performed is None && *final(self) == *old(self),
            !old(self).spec_busy() ==> {
                &&& performed matches Some(p) && is_session_result(events@, p@)
                &&& !final(self).spec_busy()
            },
    {
        if !self.try_begin() {
            return None;
        }
        let mut performed: Vec<DispatchAction> = Vec::new();
        let mut i: usize = 0;
        while i < events.len()
            invariant
                i <= events.len(),
                self.spec_phase() != DispatchPhase::Idle,
                performed.len() <= i,
                forall|j: int| 0 <= j < performed.len() ==> performed[j] == spec_action_for(events@[j]),
                forall|j: int| 0 <= j < performed.len() - 1 ==> !spec_is_modal(#[trigger] events@[j]),
                self.spec_phase() == DispatchPhase::Dispatching ==> {
                    &&& performed.len() == i
                    &&& forall|j: int| 0 <= j < i ==> !spec_is_modal(#[trigger] events@[j])
                },
                self.spec_phase() == DispatchPhase::Draining ==> performed.len() > 0
                    && spec_is_modal(events@[performed.len() - 1]),
            decreases events.len() - i,
        {
            let step = self.next_step(Some(events[i]));
            match step {
                DispatchStep::Perform(a) => {
                    performed.push(a);
                },
                _ => {},
            }
            i = i + 1;
        }
        let _finish = self.next_step(None);
        proof {
            use_type_invariant(&*self);
        }
        Some(performed)
    }
}

/// Once a modal action has been performed, nothing else is performed in
/// that session: every later event is discarded until the queue is empty.
pub proof fn lemma_nothing_after_modal(e: AppEvent, later: AppEvent)
    requires
        spec_is_modal(e),
    ensures
        spec_next_phase(DispatchPhase::Dispatching, Some(e)) == DispatchPhase::Draining,
        !(spec_step(DispatchPhase::Draining, Some(later)) is Perform),
        spec_next_phase(DispatchPhase::Draining, Some(later)) == DispatchPhase::Draining,
{
}

/// An empty queue ends the session and releases the guard.
pub proof fn lemma_empty_queue_finishes(phase: DispatchPhase)
    ensures
        spec_step(phase, None) == DispatchStep::Finish,
        spec_next_phase(phase, None) == DispatchPhase::Idle,
{
}

/// The events that ask for the hotkeys to be installed again are exactly
/// those whose action is to install them.
pub proof fn lemma_reinstall_events_reinstall(e: AppEvent)
    ensures
        spec_requires_hotkey_reinstall(e) <==> spec_action_for(e) == DispatchAction::ReinstallHotkeys,
        spec_is_modal(e) ==> spec_opens_window(e),
{
}

/// The actions a session performs when handed `events` one by one from
/// `phase`, as the dispatcher's steps answer them.
pub open spec fn spec_session_actions(phase: DispatchPhase, events: Seq<AppEvent>) -> Seq<
    DispatchAction,
>
    decreases events.len(),
{
    if events.len() == 0 {
        Seq::empty()
    } else {
        let rest = spec_session_actions(
            spec_next_phase(phase, Some(events[0])),
            events.drop_first(),
        );
        match spec_step(phase, Some(events[0])) {
            DispatchStep::Perform(a) => seq![a] + rest,
            _ => rest,
        }
    }
}

/// While dispatching, an event that is not modal is performed and the
/// session keeps dispatching, so the event after it is performed too; a
/// modal one is performed and the session turns to draining.
pub proof fn lemma_dispatching_step(e: AppEvent)
    ensures
        spec_step(DispatchPhase::Dispatching, Some(e)) == DispatchStep::Perform(spec_action_for(e)),
        !spec_is_modal(e) ==> spec_next_phase(DispatchPhase::Dispatching, Some(e))
            == DispatchPhase::Dispatching,
        spec_is_modal(e) ==> spec_next_phase(DispatchPhase::Dispatching, Some(e))
            == DispatchPhase::Draining,
{
}

/// Once draining, no event is performed.
pub proof fn lemma_draining_performs_nothing(events: Seq<AppEvent>)
    ensures
        spec_session_actions(DispatchPhase::Draining, events) == Seq::<DispatchAction>::empty(),
    decreases events.len(),
{
    if events.len() > 0 {
        lemma_draining_performs_nothing(events.drop_first());
    }
}

/// Stepping the dispatcher over a queue from the start of a session
/// performs, in order, the actions of the events up to and including the
/// first modal one, and nothing after it; with no modal event, every event
/// is performed.
pub proof fn lemma_steps_give_session_result(events: Seq<AppEvent>)
    ensures
        is_session_result(events, spec_session_actions(DispatchPhase::Dispatching, events)),
        (forall|i: int| 0 <= i < events.len() ==> !spec_is_modal(#[trigger] events[i]))
            ==> spec_session_actions(DispatchPhase::Dispatching, events).len() == events.len(),
    decreases events.len(),
{
    let p = spec_session_actions(DispatchPhase::Dispatching, events);
    if events.len() > 0 {
        let e = events[0];
        let rest = events.drop_first();
        lemma_steps_give_session_result(rest);
        lemma_draining_performs_nothing(rest);
        let q = spec_session_actions(DispatchPhase::Dispatching, rest);
        if spec_is_modal(e) {
            assert(p =~= seq![spec_action_for(e)]);
        } else {
            assert(p =~= seq![spec_action_for(e)] + q);
            assert forall|i: int| 0 <= i < p.len() implies p[i] == spec_action_for(events[i]) by {
                if i > 0 {
                    assert(p[i] == q[i - 1]);
                    assert(events[i] == rest[i - 1]);
                }
            }
            assert forall|i: int| 0 <= i < p.len() - 1 implies !spec_is_modal(#[trigger] events[i]) by {
                if i > 0 {
                    assert(events[i] == rest[i - 1]);
                }
            }
            if q.len() != rest.len() {
                assert(events[p.len() - 1] == rest[q.len() - 1]);
            }
            if forall|i: int| 0 <= i < events.len() ==> !spec_is_modal(#[trigger] events[i]) {
                assert forall|i: int| 0 <= i < rest.len() implies !spec_is_modal(#[trigger] rest[i]) by {
                    assert(rest[i] == events[i + 1]);
                }
            }
        }
    }
}

} // verus!
