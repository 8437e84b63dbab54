//! The window session: the registry, the click-through engine and the main
//! window's lifecycle behind one command and event surface.

use vstd::prelude::*;
use vstd::string::*;
use crate::error::WindowError;
use crate::lifecycle::{LifecycleAction, LifecycleEvent, MainWindowState};
use crate::region::{all_valid, hits, ClickThroughRegion, Point, RegionEngine, RegionSet};
use crate::registry::{
    fresh_state, hidden, label_views, labels_of_kind, open_step, opened, raised, FocusFallback,
    OpenStep, WindowConfig, WindowKind, WindowRegistry, WindowState,
};

verus! {

/// The labels of the session's windows and the shape of the settings window.
#[derive(Clone, Debug, PartialEq, Eq)]
pub struct SessionConfig {
    pub main_label: String,
    pub toolbar_label: String,
    pub settings_label: String,
    pub settings_window: WindowConfig,
}

/// The window that the settings command builds by default.
pub fn settings_window_config() -> (config: WindowConfig)
    ensures
        config.title@ == "Steward Settings"@,
        config.width == 1000 && config.height == 700,
        config.min_width == 600 && config.min_height == 500,
        config.max_width == 1000 && config.max_height == 800,
        config.center && config.resizable && config.decorations && config.visible,
{
    WindowConfig {
        title: String::from_str("Steward Settings"),
        width: 1000,
        height: 700,
        min_width: 600,
        min_height: 500,
        max_width: 1000,
        max_height: 800,
        center: true,
        resizable: true,
        decorations: true,
        visible: true,
    }
}

impl SessionConfig {
    /// The three labels differ from one another.
    pub open spec fn valid(self) -> bool {
        &&& self.main_label@ != self.toolbar_label@
        &&& self.main_label@ != self.settings_label@
        &&& self.toolbar_label@ != self.settings_label@
    }

    /// The labels `main`, `toolbar` and `settings`, with the default
    /// settings window.
    pub fn standard() -> (config: Self)
        ensures
            config.valid(),
            config.main_label@ == "main"@,
            config.toolbar_label@ == "toolbar"@,
            config.settings_label@ == "settings"@,
            config.settings_window.title@ == "Steward Settings"@,
            config.settings_window.visible,
    {
        proof {
            reveal_strlit("main");
            reveal_strlit("toolbar");
            reveal_strlit("settings");
            assert("main"@.len() == 4);
            assert("toolbar"@.len() == 7);
            assert("settings"@.len() == 8);
        }
        SessionConfig {
            main_label: String::from_str("main"),
            toolbar_label: String::from_str("toolbar"),
            settings_label: String::from_str("settings"),
            settings_window: settings_window_config(),
        }
    }

    pub fn is_valid(&self) -> (ok: bool)
        ensures
            ok == self.valid(),
    {
        self.main_label != self.toolbar_label && self.main_label != self.settings_label
            && self.toolbar_label != self.settings_label
    }
}

/// A session as contracts see it.
pub struct SessionModel {
    pub main: Seq<char>,
    pub toolbar: Seq<char>,
    pub settings: Seq<char>,
    /// Whether a newly built settings window is shown at once.
    pub settings_visible: bool,
    pub windows: Map<Seq<char>, WindowState>,
    /// The rectangles of the toolbar window that capture pointer input.
    pub regions: Seq<ClickThroughRegion>,
    pub lifecycle: MainWindowState,
}

impl SessionModel {
    /// The labels differ, the active rectangles are valid, and as long as
    /// the main window is alive it is registered, as a main window, and
    /// shown exactly when the lifecycle says so.
    pub open spec fn wf(self) -> bool {
        &&& self.main != self.toolbar
        &&& self.main != self.settings
        &&& self.toolbar != self.settings
        &&& all_valid(self.regions)
        &&& self.lifecycle.alive() ==> {
            &&& self.windows.contains_key(self.main)
            &&& self.windows[self.main].kind == WindowKind::Main
            &&& self.windows[self.main].visible == self.lifecycle.shown()
        }
    }

    /// A session at its start: the main window alone, shown; no rectangle.
    pub open spec fn initial(
        main: Seq<char>,
        toolbar: Seq<char>,
        settings: Seq<char>,
        settings_visible: bool,
    ) -> SessionModel {
        SessionModel {
            main,
            toolbar,
            settings,
            settings_visible,
            windows: Map::<Seq<char>, WindowState>::empty().insert(
                main,
                fresh_state(WindowKind::Main, true),
            ),
            regions: Seq::<ClickThroughRegion>::empty(),
            lifecycle: MainWindowState::Active,
        }
    }

    /// After start-up: a toolbar window that the platform built is
    /// registered and focused.
    pub open spec fn after_startup(self, toolbar_present: bool) -> SessionModel {
        if toolbar_present {
            SessionModel {
                windows: opened(self.windows, self.toolbar, WindowKind::Toolbar, true),
                ..self
            }
        } else {
            self
        }
    }

    /// After a request to open the settings window.
    pub open spec fn after_open_settings(self) -> SessionModel {
        SessionModel {
            windows: opened(
                self.windows,
                self.settings,
                WindowKind::Settings,
                self.settings_visible,
            ),
            ..self
        }
    }

    /// After the platform failed to build the settings window.
    pub open spec fn after_settings_creation_failed(self) -> SessionModel {
        SessionModel { windows: self.windows.remove(self.settings), ..self }
    }

    /// After the platform failed to focus the settings window.
    pub open spec fn after_settings_focus_failed(self, window_lost: bool) -> SessionModel {
        if window_lost {
            SessionModel {
                windows: self.windows.insert(
                    self.settings,
                    fresh_state(WindowKind::Settings, self.settings_visible),
                ),
                ..self
            }
        } else if self.windows.contains_key(self.settings) {
            SessionModel {
                windows: self.windows.insert(
                    self.settings,
                    WindowState { focused: false, ..self.windows[self.settings] },
                ),
                ..self
            }
        } else {
            self
        }
    }

    /// After a close request for the window `label`.  Only the main window
    /// is held back: it is hidden and stays registered.
    pub open spec fn after_close_request(self, label: Seq<char>) -> SessionModel {
        if label == self.main && self.lifecycle.alive() {
            SessionModel {
                windows: self.windows.insert(self.main, hidden(self.windows[self.main])),
                lifecycle: self.lifecycle.next(LifecycleEvent::CloseRequested),
                ..self
            }
        } else {
            self
        }
    }

    /// After a request to show the main window again.
    pub open spec fn after_show_main(self) -> SessionModel {
        if self.lifecycle.alive() {
            SessionModel {
                windows: self.windows.insert(self.main, raised(self.windows[self.main])),
                lifecycle: self.lifecycle.next(LifecycleEvent::ShowRequested),
                ..self
            }
        } else {
            self
        }
    }

    /// After the window `label` was destroyed.  With a live main window go
    /// all settings windows; any other window goes alone.
    pub open spec fn after_destroy(self, label: Seq<char>) -> SessionModel {
        if label == self.main && self.lifecycle.alive() {
            let rest = self.windows.remove(self.main);
            SessionModel {
                windows: rest.remove_keys(labels_of_kind(rest, WindowKind::Settings)),
                lifecycle: self.lifecycle.next(LifecycleEvent::Destroyed),
                ..self
            }
        } else {
            SessionModel { windows: self.windows.remove(label), ..self }
        }
    }

    /// The labels of the windows that the platform has to close after the
    /// window `label` was destroyed.
    pub open spec fn cascade(self, label: Seq<char>) -> Set<Seq<char>> {
        if label == self.main && self.lifecycle.alive() {
            labels_of_kind(self.windows.remove(self.main), WindowKind::Settings)
        } else {
            Set::empty()
        }
    }

    /// What a request to set the rectangles of the window `label` returns.
    pub open spec fn set_regions_outcome(
        self,
        label: Seq<char>,
        regions: Seq<ClickThroughRegion>,
    ) -> Result<(), WindowError> {
        if label != self.toolbar {
            Err(WindowError::InvalidTarget)
        } else if !all_valid(regions) {
            Err(WindowError::InvalidRegion)
        } else {
            Ok(())
        }
    }

    /// After a request to set the rectangles of the window `label`: the
    /// new rectangles are in force if the request was accepted, the old
    /// ones if it was not.
    pub open spec fn after_set_regions(
        self,
        label: Seq<char>,
        regions: Seq<ClickThroughRegion>,
    ) -> SessionModel {
        if self.set_regions_outcome(label, regions) is Ok {
            SessionModel { regions, ..self }
        } else {
            self
        }
    }
}

/// The coordinator of one overlay shell.  Commands and window-manager
/// events go in; what the platform layer has to do comes out.
pub struct WindowSession {
    main_label: String,
    toolbar_label: String,
    settings_label: String,
    settings_window: WindowConfig,
    registry: WindowRegistry,
    engine: RegionEngine,
    lifecycle: MainWindowState,
}

impl View for WindowSession {
    type V = SessionModel;

    closed spec fn view(&self) -> SessionModel {
        SessionModel {
            main: self.main_label@,
            toolbar: self.toolbar_label@,
            settings: self.settings_label@,
            settings_visible: self.settings_window.visible,
            windows: self.registry@,
            regions: self.engine.active(),
            lifecycle: self.lifecycle,
        }
    }
}

fn same_label(label: &str, own: &String) -> (same: bool)
    ensures
        same == (label@ == own@),
{
    label.to_owned() == *own
}

impl WindowSession {
    /// How many live windows are registered under `label`.
    pub closed spec fn live_count(self, label: Seq<char>) -> nat {
        self.registry.live_count(label)
    }

    /// The parts of the session agree with one another.
    pub closed spec fn coherent(self) -> bool {
        &&& self.registry.wf()
        &&& self.engine.wf()
        &&& self.engine.target() == self.toolbar_label@
    }

    /// The session is coherent and its model is well formed.
    pub open spec fn wf(self) -> bool {
        self.coherent() && self@.wf()
    }

    /// Starts a session.  The labels of `config` must differ from one
    /// another; with labels that do not, there is no session.
    pub fn new(config: SessionConfig) -> (session: Option<Self>)
        ensures
            session is Some <==> config.valid(),
            session matches Some(s) ==> {
                &&& s.wf()
                &&& s@ == SessionModel::initial(
                    config.main_label@,
                    config.toolbar_label@,
                    config.settings_label@,
                    config.settings_window.visible,
                )
            },
    {
        if !config.is_valid() {
            return None;
        }
        let mut registry = WindowRegistry::new();
        registry.adopt(config.main_label.as_str(), WindowKind::Main);
        let engine = RegionEngine::new(config.toolbar_label.as_str());
        let session = WindowSession {
            main_label: config.main_label,
            toolbar_label: config.toolbar_label,
            settings_label: config.settings_label,
            settings_window: config.settings_window,
            registry,
            engine,
            lifecycle: MainWindowState::Active,
        };
        Some(session)
    }

    /// Runs once when the application has started.  A toolbar window that
    /// the platform built from its static configuration is registered; the
    /// result tells whether the platform should focus it.
    pub fn on_startup(&mut self, toolbar_present: bool) -> (focus_toolbar: bool)
        requires
            old(self).wf(),
        ensures
            final(self).wf(),
            focus_toolbar == toolbar_present,
            final(self)@ == old(self)@.after_startup(toolbar_present),
    {
        if toolbar_present {
            self.registry.adopt(self.toolbar_label.as_str(), WindowKind::Toolbar);
        }
        toolbar_present
    }

    /// The command that opens the settings window, or brings it to the
    /// front if it is open.  However often it is called, at most one
    /// settings window is registered.
    pub fn open_or_focus_settings(&mut self) -> (step: OpenStep)
        requires
            old(self).wf(),
        ensures
            final(self).wf(),
            step == open_step(old(self)@.windows, old(self)@.settings),
            final(self)@ == old(self)@.after_open_settings(),
            final(self).live_count(final(self)@.settings) == 1,
    {
        self.registry.open_or_focus(
            self.settings_label.as_str(),
            WindowKind::Settings,
            &self.settings_window,
        )
    }

    /// Reports that the platform could not build the settings window.  The
    /// label is free again; the result is the text for the caller of the
    /// command.
    pub fn settings_creation_failed(&mut self, reason: &str) -> (text: String)
        requires
            old(self).wf(),
        ensures
            final(self).wf(),
            text@ == "Failed to create settings window: "@ + reason@,
            final(self)@ == old(self)@.after_settings_creation_failed(),
    {
        self.registry.close(self.settings_label.as_str());
        let mut text = String::from_str("Failed to create settings window: ");
        text.append(reason);
        text
    }

    /// Reports that the platform could not focus the settings window.  The
    /// command still succeeds: the failure is for the log.  Where the
    /// window is gone (`window_lost`), the platform has to build it anew.
    pub fn settings_focus_failed(&mut self, reason: String, window_lost: bool) -> (fallback:
        FocusFallback)
        requires
            old(self).wf(),
        ensures
            final(self).wf(),
            fallback.logged == WindowError::FocusFailed(reason),
            fallback.step == if window_lost {
                Some(OpenStep::Create)
            } else {
                None::<OpenStep>
            },
            final(self)@ == old(self)@.after_settings_focus_failed(window_lost),
    {
        self.registry.focus_failed(
            self.settings_label.as_str(),
            WindowKind::Settings,
            &self.settings_window,
            reason,
            window_lost,
        )
    }

    /// Handles a close request for the window `label`.  The main window is
    /// not closed: the platform has to suppress the close and hide it.
    /// Every other window closes as the platform would close it.
    pub fn on_close_requested(&mut self, label: &str) -> (action: LifecycleAction)
        requires
            old(self).wf(),
        ensures
            final(self).wf(),
            action == if label@ == old(self)@.main {
                old(self)@.lifecycle.action(LifecycleEvent::CloseRequested)
            } else {
                LifecycleAction::Nothing
            },
            final(self)@ == old(self)@.after_close_request(label@),
    {
        if !same_label(label, &self.main_label) {
            return LifecycleAction::Nothing;
        }
        let (next, action) = self.lifecycle.on_event(LifecycleEvent::CloseRequested);
        if self.lifecycle.is_alive() {
            self.registry.hide_window(label);
            self.lifecycle = next;
        }
        action
    }

    /// Shows the main window again after it was hidden.
    pub fn show_main(&mut self) -> (action: LifecycleAction)
        requires
            old(self).wf(),
        ensures
            final(self).wf(),
            action == old(self)@.lifecycle.action(LifecycleEvent::ShowRequested),
            final(self)@ == old(self)@.after_show_main(),
    {
        let (next, action) = self.lifecycle.on_event(LifecycleEvent::ShowRequested);
        if self.lifecycle.is_alive() {
            self.registry.raise_window(self.main_label.as_str());
            self.lifecycle = next;
        }
        action
    }

    /// Handles the destruction of the window `label`.  The window leaves
    /// the registry.  With the main window go all settings windows: their
    /// labels are returned, each once, for the platform to close without
    /// waiting.
    pub fn on_destroyed(&mut self, label: &str) -> (closed: Vec<String>)
        requires
            old(self).wf(),
        ensures
            final(self).wf(),
            final(self)@ == old(self)@.after_destroy(label@),
            label_views(closed@).no_duplicates(),
            label_views(closed@).to_set() == old(self)@.cascade(label@),
    {
        if same_label(label, &self.main_label) && self.lifecycle.is_alive() {
            let (next, _) = self.lifecycle.on_event(LifecycleEvent::Destroyed);
            self.registry.close(label);
            let closed = self.registry.close_kind(WindowKind::Settings);
            self.lifecycle = next;
            closed
        } else {
            self.registry.close(label);
            let closed: Vec<String> = Vec::new();
            proof {
                assert(label_views(closed@).to_set() =~= Set::<Seq<char>>::empty());
            }
            closed
        }
    }

    /// Replaces the toolbar's click-through rectangles on behalf of the
    /// window `window_label`.  Only the toolbar window may ask; the list is
    /// taken whole or not at all.
    pub fn set_regions(&mut self, window_label: &str, regions: RegionSet) -> (outcome: Result<
        (),
        WindowError,
    >)
        requires
            old(self).wf(),
        ensures
            final(self).wf(),
            outcome == old(self)@.set_regions_outcome(window_label@, regions@),
            final(self)@ == old(self)@.after_set_regions(window_label@, regions@),
    {
        self.engine.set_regions(window_label, regions)
    }

    /// The command that sets the toolbar's click-through rectangles.
    pub fn set_toolbar_regions(&mut self, regions: RegionSet) -> (outcome: Result<(), WindowError>)
        requires
            old(self).wf(),
        ensures
            final(self).wf(),
            outcome == old(self)@.set_regions_outcome(old(self)@.toolbar, regions@),
            final(self)@ == old(self)@.after_set_regions(old(self)@.toolbar, regions@),
    {
        self.engine.set_regions(self.toolbar_label.as_str(), regions)
    }

    /// The command as the front end calls it: the error is text.
    pub fn configure_toolbar_click_through(&mut self, window_label: &str, regions: RegionSet) -> (outcome:
        Result<(), String>)
        requires
            old(self).wf(),
        ensures
            final(self).wf(),
            final(self)@ == old(self)@.after_set_regions(window_label@, regions@),
            match old(self)@.set_regions_outcome(window_label@, regions@) {
                Ok(()) => outcome is Ok,
                Err(error) => (outcome matches Err(text) && text@ == error.spec_message()),
            },
    {
        match self.engine.set_regions(window_label, regions) {
            Ok(()) => Ok(()),
            Err(error) => Err(error.message()),
        }
    }

    /// Whether pointer input at `point` is delivered to the toolbar window
    /// rather than to what lies beneath it.
    pub fn hit_test(&self, point: Point) -> (hit: bool)
        ensures
            hit == hits(self@.regions, point),
    {
        self.engine.hit_test(point)
    }

    /// The rectangles in force, for the platform layer to apply to the
    /// toolbar window.
    pub fn regions(&self) -> (regions: &RegionSet)
        ensures
            regions@ == self@.regions,
    {
        self.engine.regions()
    }

    /// The registry, for looking up windows.
    pub fn registry(&self) -> (registry: &WindowRegistry)
        ensures
            registry@ == self@.windows,
            self.wf() ==> registry.wf(),
    {
        &self.registry
    }

    pub fn main_state(&self) -> (state: MainWindowState)
        ensures
            state == self@.lifecycle,
    {
        self.lifecycle
    }

    pub fn main_label(&self) -> (label: &str)
        ensures
            label@ == self@.main,
    {
        self.main_label.as_str()
    }

    pub fn toolbar_label(&self) -> (label: &str)
        ensures
            label@ == self@.toolbar,
    {
        self.toolbar_label.as_str()
    }

    pub fn settings_label(&self) -> (label: &str)
        ensures
            label@ == self@.settings,
    {
        self.settings_label.as_str()
    }

    /// The shape of the settings window, for the platform layer to build.
    pub fn settings_window(&self) -> (config: &WindowConfig)
        ensures
            config.visible == self@.settings_visible,
    {
        &self.settings_window
    }
}

/// In every state of a session, no label has more than one live window.
pub proof fn lemma_session_one_window_per_label(session: WindowSession, label: Seq<char>)
    requires
        session.wf(),
    ensures
        session.live_count(label) <= 1,
        session.live_count(label) == 1 <==> session@.windows.contains_key(label),
{
    crate::registry::lemma_one_window_per_label(session.registry, label);
}

/// Every command and every event leads from a well-formed session to a
/// well-formed session.
pub proof fn lemma_steps_keep_wf(
    model: SessionModel,
    label: Seq<char>,
    regions: Seq<ClickThroughRegion>,
    flag: bool,
)
    requires
        model.wf(),
    ensures
        model.after_startup(flag).wf(),
        model.after_open_settings().wf(),
        model.after_settings_creation_failed().wf(),
        model.after_settings_focus_failed(flag).wf(),
        model.after_close_request(label).wf(),
        model.after_show_main().wf(),
        model.after_destroy(label).wf(),
        model.after_set_regions(label, regions).wf(),
{
}

/// A close request for the main window hides it and nothing more: the
/// window stays registered, every other window stays as it was, and a
/// request to show it makes it visible again.
pub proof fn lemma_close_hides_main_until_shown(model: SessionModel)
    requires
        model.wf(),
        model.lifecycle.alive(),
    ensures
        ({
            let closed = model.after_close_request(model.main);
            let shown = closed.after_show_main();
            &&& closed.lifecycle == MainWindowState::Hidden
            &&& closed.windows.contains_key(model.main)
            &&& !closed.windows[model.main].visible
            &&& closed.windows.dom() == model.windows.dom()
            &&& forall|other: Seq<char>|
                other != model.main && model.windows.contains_key(other)
                    ==> #[trigger] closed.windows[other] == model.windows[other]
            &&& shown.lifecycle == MainWindowState::Active
            &&& shown.windows.contains_key(model.main)
            &&& shown.windows[model.main].visible
        }),
{
    let closed = model.after_close_request(model.main);
    assert(closed.windows.dom() =~= model.windows.dom());
}

/// When the main window is destroyed, it and every settings window leave
/// the registry, the settings windows are all named in the cascade, and
/// windows of other kinds stay registered.
pub proof fn lemma_destroying_main_clears_dependents(model: SessionModel)
    requires
        model.wf(),
        model.lifecycle.alive(),
    ensures
        ({
            let after = model.after_destroy(model.main);
            &&& after.lifecycle == MainWindowState::Terminated
            &&& !after.windows.contains_key(model.main)
            &&& forall|label: Seq<char>| #[trigger]
                after.windows.contains_key(label) ==> after.windows[label].kind
                    != WindowKind::Settings
            &&& forall|label: Seq<char>|
                model.windows.contains_key(label) && (#[trigger] model.windows[label]).kind
                    == WindowKind::Settings ==> model.cascade(model.main).contains(label)
                    && !after.windows.contains_key(label)
            &&& forall|label: Seq<char>|
                model.windows.contains_key(label) && (#[trigger] model.windows[label]).kind
                    == WindowKind::Toolbar ==> after.windows.contains_key(label)
                    && after.windows[label] == model.windows[label]
        }),
{
}

/// A request on behalf of any window but the toolbar is refused as an
/// invalid target, whatever the rectangles, and changes nothing.
pub proof fn lemma_foreign_label_changes_nothing(
    model: SessionModel,
    label: Seq<char>,
    regions: Seq<ClickThroughRegion>,
)
    requires
        label != model.toolbar,
    ensures
        model.set_regions_outcome(label, regions) == Err::<(), WindowError>(
            WindowError::InvalidTarget,
        ),
        model.after_set_regions(label, regions) == model,
{
}

/// Setting the empty list on the toolbar succeeds and leaves no point that
/// captures input: the window is click-through everywhere.
pub proof fn lemma_empty_list_is_fully_click_through(model: SessionModel, point: Point)
    ensures
        model.set_regions_outcome(model.toolbar, Seq::<ClickThroughRegion>::empty()) is Ok,
        !hits(
            model.after_set_regions(model.toolbar, Seq::<ClickThroughRegion>::empty()).regions,
            point,
        ),
{
}

} // verus!
