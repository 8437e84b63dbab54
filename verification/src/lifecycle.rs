//! The life of the main window: shown, hidden on close, gone on destroy.

use vstd::prelude::*;

verus! {

/// Where the main window stands.
#[derive(Clone, Copy, Debug, PartialEq, Eq, Structural)]
pub enum MainWindowState {
    /// Shown and in normal use.
    Active,
    /// Not shown; the process runs on.
    Hidden,
    /// Destroyed.  Nothing leads out of this state.
    Terminated,
}

/// What the window manager or the front end reports about the main window.
#[derive(Clone, Copy, Debug, PartialEq, Eq, Structural)]
pub enum LifecycleEvent {
    /// The native close control was used.
    CloseRequested,
    /// The front end asks for the window to be shown again.
    ShowRequested,
    /// The window was destroyed for good.
    Destroyed,
}

/// What the platform layer has to do in answer to an event.
#[derive(Clone, Copy, Debug, PartialEq, Eq, Structural)]
pub enum LifecycleAction {
    /// Nothing.
    Nothing,
    /// Suppress the default close and hide the window instead.
    HideInsteadOfClose,
    /// Show the window and bring it to the front.
    Show,
    /// Close every dependent window, without waiting for any of them.
    CascadeClose,
}

impl MainWindowState {
    /// The state that follows `self` on `event`.
    pub open spec fn next(self, event: LifecycleEvent) -> MainWindowState {
        match (self, event) {
            (MainWindowState::Terminated, _) => MainWindowState::Terminated,
            (_, LifecycleEvent::CloseRequested) => MainWindowState::Hidden,
            (_, LifecycleEvent::ShowRequested) => MainWindowState::Active,
            (_, LifecycleEvent::Destroyed) => MainWindowState::Terminated,
        }
    }

    /// The action that `event` calls for in state `self`.
    pub open spec fn action(self, event: LifecycleEvent) -> LifecycleAction {
        match (self, event) {
            (MainWindowState::Terminated, _) => LifecycleAction::Nothing,
            (_, LifecycleEvent::CloseRequested) => LifecycleAction::HideInsteadOfClose,
            (_, LifecycleEvent::ShowRequested) => LifecycleAction::Show,
            (_, LifecycleEvent::Destroyed) => LifecycleAction::CascadeClose,
        }
    }

    /// Whether the main window is on screen in this state.
    pub open spec fn shown(self) -> bool {
        self is Active
    }

    /// Whether the main window still exists in this state.
    pub open spec fn alive(self) -> bool {
        !(self is Terminated)
    }

    /// Takes one step of the state machine.
    pub fn on_event(self, event: LifecycleEvent) -> (step: (MainWindowState, LifecycleAction))
        ensures
            step.0 == self.next(event),
            step.1 == self.action(event),
    {
        match self {
            MainWindowState::Terminated => (MainWindowState::Terminated, LifecycleAction::Nothing),
            _ => match event {
                LifecycleEvent::CloseRequested => (
                    MainWindowState::Hidden,
                    LifecycleAction::HideInsteadOfClose,
                ),
                LifecycleEvent::ShowRequested => (MainWindowState::Active, LifecycleAction::Show),
                LifecycleEvent::Destroyed => (
                    MainWindowState::Terminated,
                    LifecycleAction::CascadeClose,
                ),
            },
        }
    }

    pub fn is_alive(self) -> (alive: bool)
        ensures
            alive == self.alive(),
    {
        match self {
            MainWindowState::Terminated => false,
            _ => true,
        }
    }

    pub fn is_shown(self) -> (shown: bool)
        ensures
            shown == self.shown(),
    {
        match self {
            MainWindowState::Active => true,
            _ => false,
        }
    }
}

/// The state reached from `state` by the events of `events`, in order.
pub open spec fn run(state: MainWindowState, events: Seq<LifecycleEvent>) -> MainWindowState
    decreases events.len(),
{
    if events.len() == 0 {
        state
    } else {
        run(state.next(events[0]), events.drop_first())
    }
}

/// A close request never ends the main window: it hides it, and a later
/// request to show it makes it active again.
pub proof fn lemma_close_hides_and_show_restores(state: MainWindowState)
    requires
        state.alive(),
    ensures
        state.next(LifecycleEvent::CloseRequested) == MainWindowState::Hidden,
        state.action(LifecycleEvent::CloseRequested) == LifecycleAction::HideInsteadOfClose,
        state.next(LifecycleEvent::CloseRequested).next(LifecycleEvent::ShowRequested)
            == MainWindowState::Active,
{
}

/// The cascade is called for exactly when a live main window is destroyed:
/// not when it is hidden or shown, and not a second time.
pub proof fn lemma_cascade_only_on_destroy(state: MainWindowState, event: LifecycleEvent)
    ensures
        state.action(event) == LifecycleAction::CascadeClose <==> (state.alive() && event
            == LifecycleEvent::Destroyed),
        state.next(event) == MainWindowState::Terminated <==> (!state.alive() || event
            == LifecycleEvent::Destroyed),
{
}

/// Once terminated, the main window stays terminated whatever is reported.
pub proof fn lemma_terminated_is_final(events: Seq<LifecycleEvent>)
    ensures
        run(MainWindowState::Terminated, events) == MainWindowState::Terminated,
    decreases events.len(),
{
    if events.len() > 0 {
        lemma_terminated_is_final(events.drop_first());
    }
}

} // verus!
