//! The window registry: which windows are live, each under its own label.

use vstd::prelude::*;
use crate::error::WindowError;

verus! {

/// The role of a window in the shell.
#[derive(Clone, Copy, Debug, PartialEq, Eq, Structural)]
pub enum WindowKind {
    Main,
    Settings,
    Toolbar,
}

/// What the registry records about one live window besides its label.
/// `focused` is advisory: it holds what the registry last asked for.
#[derive(Clone, Copy, Debug, PartialEq, Eq, Structural)]
pub struct WindowState {
    pub kind: WindowKind,
    pub visible: bool,
    pub always_on_top: bool,
    pub focused: bool,
}

/// How a new window is to be built.  Sizes are in logical pixels.
#[derive(Clone, Debug, PartialEq, Eq)]
pub struct WindowConfig {
    pub title: String,
    pub width: u32,
    pub height: u32,
    pub min_width: u32,
    pub min_height: u32,
    pub max_width: u32,
    pub max_height: u32,
    pub center: bool,
    pub resizable: bool,
    pub decorations: bool,
    pub visible: bool,
}

/// One live window.  The registry owns the handles; other components name a
/// window by its label.
#[derive(Debug)]
pub struct WindowHandle {
    label: String,
    state: WindowState,
}

/// A handle as contracts see it.
pub struct WindowView {
    pub label: Seq<char>,
    pub state: WindowState,
}

impl View for WindowHandle {
    type V = WindowView;

    closed spec fn view(&self) -> WindowView {
        WindowView { label: self.label@, state: self.state }
    }
}

impl WindowHandle {
    pub fn label(&self) -> (label: &str)
        ensures
            label@ == self@.label,
    {
        self.label.as_str()
    }

    pub fn state(&self) -> (state: WindowState)
        ensures
            state == self@.state,
    {
        self.state
    }
}

/// What the platform layer has to do to finish an open-or-focus request.
#[derive(Clone, Copy, Debug, PartialEq, Eq, Structural)]
pub enum OpenStep {
    /// The window is registered: show it and bring it to the front.
    Focus,
    /// The label was free and is now taken: build the window.
    Create,
}

/// The state in which a window enters the registry: shown or not as its
/// configuration says, focused when it is shown, not pinned on top.
pub open spec fn fresh_state(kind: WindowKind, visible: bool) -> WindowState {
    WindowState { kind, visible, always_on_top: false, focused: visible }
}

/// The state of a window after it was brought to the foreground.
pub open spec fn raised(state: WindowState) -> WindowState {
    WindowState { visible: true, focused: true, ..state }
}

/// The state of a window after it was taken off the screen.
pub open spec fn hidden(state: WindowState) -> WindowState {
    WindowState { visible: false, focused: false, ..state }
}

/// The step that an open-or-focus request for `label` leads to.
pub open spec fn open_step(windows: Map<Seq<char>, WindowState>, label: Seq<char>) -> OpenStep {
    if windows.contains_key(label) {
        OpenStep::Focus
    } else {
        OpenStep::Create
    }
}

/// The registered windows after an open-or-focus request for `label`: a
/// live window is raised, a free label is taken by a fresh window.
pub open spec fn opened(
    windows: Map<Seq<char>, WindowState>,
    label: Seq<char>,
    kind: WindowKind,
    visible: bool,
) -> Map<Seq<char>, WindowState> {
    if windows.contains_key(label) {
        windows.insert(label, raised(windows[label]))
    } else {
        windows.insert(label, fresh_state(kind, visible))
    }
}

/// Whether some entry carries `label`.
pub open spec fn has_label(entries: Seq<WindowView>, label: Seq<char>) -> bool {
    exists|i: int| 0 <= i < entries.len() && (#[trigger] entries[i]).label == label
}

/// The place of an entry that carries `label`, where there is one.
pub open spec fn position(entries: Seq<WindowView>, label: Seq<char>) -> int {
    choose|i: int| 0 <= i < entries.len() && (#[trigger] entries[i]).label == label
}

/// No two entries carry the same label.
pub open spec fn distinct_labels(entries: Seq<WindowView>) -> bool {
    forall|i: int, j: int|
        0 <= i < j < entries.len() ==> (#[trigger] entries[i]).label != (#[trigger] entries[j]).label
}

/// The entries as a mapping from label to state.
pub open spec fn as_map(entries: Seq<WindowView>) -> Map<Seq<char>, WindowState> {
    Map::new(
        |label: Seq<char>| has_label(entries, label),
        |label: Seq<char>| entries[position(entries, label)].state,
    )
}

/// How many entries carry `label`.
pub open spec fn count_label(entries: Seq<WindowView>, label: Seq<char>) -> nat {
    Set::new(|i: int| 0 <= i < entries.len() && entries[i].label == label).len()
}

proof fn lemma_position(entries: Seq<WindowView>, i: int)
    requires
        distinct_labels(entries),
        0 <= i < entries.len(),
    ensures
        has_label(entries, entries[i].label),
        position(entries, entries[i].label) == i,
{
    let p = position(entries, entries[i].label);
    if p < i {
        assert(entries[p].label != entries[i].label);
    } else if i < p {
        assert(entries[i].label != entries[p].label);
    }
}

proof fn lemma_push(entries: Seq<WindowView>, entry: WindowView)
    requires
        distinct_labels(entries),
        !has_label(entries, entry.label),
    ensures
        distinct_labels(entries.push(entry)),
        as_map(entries.push(entry)) == as_map(entries).insert(entry.label, entry.state),
{
    let more = entries.push(entry);
    assert forall|i: int, j: int| 0 <= i < j < more.len() implies (#[trigger] more[i]).label != (
    #[trigger] more[j]).label by {
        if j < entries.len() {
            assert(entries[i].label != entries[j].label);
        } else {
            assert(more[i] == entries[i]);
        }
    }
    assert forall|label: Seq<char>| has_label(more, label) <==> (has_label(entries, label) || label
        == entry.label) by {
        if has_label(entries, label) {
            let i = position(entries, label);
            assert(more[i].label == label);
        }
        if label == entry.label {
            assert(more[entries.len() as int].label == label);
        }
        if has_label(more, label) {
            let i = position(more, label);
            if i < entries.len() {
                assert(entries[i].label == label);
            }
        }
    }
    assert forall|label: Seq<char>| has_label(more, label) implies #[trigger] as_map(more)[label]
        == as_map(entries).insert(entry.label, entry.state)[label] by {
        let i = position(more, label);
        lemma_position(more, i);
        if i < entries.len() {
            assert(entries[i] == more[i]);
            lemma_position(entries, i);
        }
    }
    assert(as_map(more) =~= as_map(entries).insert(entry.label, entry.state));
}

proof fn lemma_update(entries: Seq<WindowView>, i: int, state: WindowState)
    requires
        distinct_labels(entries),
        0 <= i < entries.len(),
    ensures
        distinct_labels(entries.update(i, WindowView { label: entries[i].label, state })),
        as_map(entries.update(i, WindowView { label: entries[i].label, state })) == as_map(
            entries,
        ).insert(entries[i].label, state),
{
    let label = entries[i].label;
    let next = entries.update(i, WindowView { label, state });
    assert forall|a: int, b: int| 0 <= a < b < next.len() implies (#[trigger] next[a]).label != (
    #[trigger] next[b]).label by {
        assert(next[a].label == entries[a].label);
        assert(next[b].label == entries[b].label);
        assert(entries[a].label != entries[b].label);
    }
    assert forall|l: Seq<char>| has_label(next, l) <==> has_label(entries, l) by {
        if has_label(entries, l) {
            let k = position(entries, l);
            assert(next[k].label == l);
        }
        if has_label(next, l) {
            let k = position(next, l);
            assert(entries[k].label == l);
        }
    }
    lemma_position(entries, i);
    assert forall|l: Seq<char>| has_label(next, l) implies #[trigger] as_map(next)[l] == as_map(
        entries,
    ).insert(label, state)[l] by {
        let k = position(next, l);
        lemma_position(next, k);
        assert(entries[k].label == l);
        lemma_position(entries, k);
    }
    assert(as_map(next) =~= as_map(entries).insert(label, state));
}

proof fn lemma_remove(entries: Seq<WindowView>, i: int)
    requires
        distinct_labels(entries),
        0 <= i < entries.len(),
    ensures
        distinct_labels(entries.remove(i)),
        as_map(entries.remove(i)) == as_map(entries).remove(entries[i].label),
{
    let label = entries[i].label;
    let rest = entries.remove(i);
    assert forall|a: int, b: int| 0 <= a < b < rest.len() implies (#[trigger] rest[a]).label != (
    #[trigger] rest[b]).label by {
        let a0 = if a < i { a } else { a + 1 };
        let b0 = if b < i { b } else { b + 1 };
        assert(rest[a] == entries[a0]);
        assert(rest[b] == entries[b0]);
        assert(entries[a0].label != entries[b0].label);
    }
    assert forall|l: Seq<char>| has_label(rest, l) <==> (has_label(entries, l) && l != label) by {
        if has_label(entries, l) && l != label {
            let k = position(entries, l);
            let k1 = if k < i { k } else { k - 1 };
            assert(rest[k1] == entries[k]);
        }
        if has_label(rest, l) {
            let k = position(rest, l);
            let k0 = if k < i { k } else { k + 1 };
            assert(rest[k] == entries[k0]);
            if l == label {
                lemma_position(entries, k0);
                lemma_position(entries, i);
            }
        }
    }
    assert forall|l: Seq<char>| has_label(rest, l) implies #[trigger] as_map(rest)[l] == as_map(
        entries,
    ).remove(label)[l] by {
        let k = position(rest, l);
        lemma_position(rest, k);
        let k0 = if k < i { k } else { k + 1 };
        assert(rest[k] == entries[k0]);
        lemma_position(entries, k0);
    }
    assert(as_map(rest) =~= as_map(entries).remove(label));
}

proof fn lemma_count(entries: Seq<WindowView>, label: Seq<char>)
    requires
        distinct_labels(entries),
    ensures
        count_label(entries, label) == if has_label(entries, label) {
            1nat
        } else {
            0nat
        },
{
    let carriers = Set::new(|i: int| 0 <= i < entries.len() && entries[i].label == label);
    if has_label(entries, label) {
        let p = position(entries, label);
        assert forall|i: int| carriers.contains(i) implies i == p by {
            lemma_position(entries, i);
        }
        assert(carriers =~= Set::empty().insert(p));
    } else {
        assert(carriers =~= Set::empty());
    }
}

proof fn lemma_dom_len(entries: Seq<WindowView>)
    requires
        distinct_labels(entries),
    ensures
        as_map(entries).dom().finite(),
        as_map(entries).dom().len() == entries.len(),
    decreases entries.len(),
{
    if entries.len() == 0 {
        assert(as_map(entries).dom() =~= Set::<Seq<char>>::empty());
    } else {
        let init = entries.drop_last();
        let last = entries.last();
        assert(entries =~= init.push(last));
        assert forall|i: int, j: int| 0 <= i < j < init.len() implies (#[trigger] init[i]).label != (
        #[trigger] init[j]).label by {
            assert(entries[i].label != entries[j].label);
        }
        if has_label(init, last.label) {
            let p = position(init, last.label);
            assert(entries[p].label != entries[entries.len() - 1].label);
        }
        lemma_dom_len(init);
        lemma_push(init, last);
        assert(!as_map(init).dom().contains(last.label));
        assert(as_map(entries).dom() =~= as_map(init).dom().insert(last.label));
    }
}

/// The registry of live windows, keyed by label.
pub struct WindowRegistry {
    windows: Vec<WindowHandle>,
}

impl View for WindowRegistry {
    type V = Map<Seq<char>, WindowState>;

    open spec fn view(&self) -> Map<Seq<char>, WindowState> {
        as_map(self.entries())
    }
}

impl WindowRegistry {
    /// The registered windows in the order in which they were registered.
    pub closed spec fn entries(self) -> Seq<WindowView> {
        self.windows@.map_values(|h: WindowHandle| h@)
    }

    /// At most one window is registered under any label.
    pub open spec fn wf(self) -> bool {
        distinct_labels(self.entries())
    }

    /// How many live windows are registered under `label`.
    pub open spec fn live_count(self, label: Seq<char>) -> nat {
        count_label(self.entries(), label)
    }

    /// The registry without any window.
    pub fn new() -> (registry: Self)
        ensures
            registry.wf(),
            registry.entries() == Seq::<WindowView>::empty(),
            registry@ == Map::<Seq<char>, WindowState>::empty(),
    {
        let registry = WindowRegistry { windows: Vec::new() };
        assert(registry.entries() =~= Seq::<WindowView>::empty());
        assert(registry@ =~= Map::<Seq<char>, WindowState>::empty());
        registry
    }

    /// The number of registered windows.
    pub fn len(&self) -> (n: usize)
        ensures
            n == self.entries().len(),
            self.wf() ==> self@.dom().finite() && n == self@.dom().len(),
    {
        proof {
            if self.wf() {
                lemma_dom_len(self.entries());
            }
        }
        self.windows.len()
    }

    fn find(&self, key: &String) -> (found: Option<usize>)
        ensures
            match found {
                Some(i) => i < self.entries().len() && self.entries()[i as int].label == key@,
                None => !has_label(self.entries(), key@),
            },
    {
        let mut i: usize = 0;
        while i < self.windows.len()
            invariant
                i <= self.windows.len(),
                forall|j: int| 0 <= j < i ==> (#[trigger] self.entries()[j]).label != key@,
            decreases self.windows.len() - i,
        {
            if self.windows[i].label == *key {
                return Some(i);
            }
            i += 1;
        }
        None
    }

    /// Whether a window is registered under `label`.
    pub fn contains(&self, label: &str) -> (present: bool)
        ensures
            present == self@.contains_key(label@),
    {
        let key = label.to_owned();
        self.find(&key).is_some()
    }

    /// The handle of the window registered under `label`.
    pub fn get(&self, label: &str) -> (handle: Option<&WindowHandle>)
        requires
            self.wf(),
        ensures
            self@.contains_key(label@) ==> (handle matches Some(h) && h@ == (WindowView {
                label: label@,
                state: self@[label@],
            })),
            !self@.contains_key(label@) ==> handle is None,
    {
        let key = label.to_owned();
        match self.find(&key) {
            Some(i) => {
                proof {
                    lemma_position(self.entries(), i as int);
                }
                Some(&self.windows[i])
            },
            None => None,
        }
    }

    /// The recorded state of the window registered under `label`.
    pub fn state(&self, label: &str) -> (state: Option<WindowState>)
        requires
            self.wf(),
        ensures
            self@.contains_key(label@) ==> state == Some(self@[label@]),
            !self@.contains_key(label@) ==> state is None,
    {
        let key = label.to_owned();
        match self.find(&key) {
            Some(i) => {
                proof {
                    lemma_position(self.entries(), i as int);
                }
                Some(self.windows[i].state)
            },
            None => None,
        }
    }
}

impl WindowRegistry {
    fn put_state(&mut self, i: usize, state: WindowState)
        requires
            old(self).wf(),
            i < old(self).entries().len(),
        ensures
            final(self).wf(),
            final(self).entries() == old(self).entries().update(
                i as int,
                WindowView { label: old(self).entries()[i as int].label, state },
            ),
            final(self)@ == old(self)@.insert(old(self).entries()[i as int].label, state),
    {
        self.windows[i].state = state;
        proof {
            let before = old(self).entries();
            assert(self.entries() =~= before.update(
                i as int,
                WindowView { label: before[i as int].label, state },
            ));
            lemma_update(before, i as int, state);
        }
    }

    fn take_out(&mut self, i: usize) -> (label: String)
        requires
            old(self).wf(),
            i < old(self).entries().len(),
        ensures
            final(self).wf(),
            label@ == old(self).entries()[i as int].label,
            final(self).entries() == old(self).entries().remove(i as int),
            final(self)@ == old(self)@.remove(old(self).entries()[i as int].label),
    {
        let handle = self.windows.remove(i);
        proof {
            assert(self.entries() =~= old(self).entries().remove(i as int));
            lemma_remove(old(self).entries(), i as int);
        }
        handle.label
    }

    fn put_in(&mut self, label: String, state: WindowState)
        requires
            old(self).wf(),
            !has_label(old(self).entries(), label@),
        ensures
            final(self).wf(),
            final(self).entries() == old(self).entries().push(WindowView { label: label@, state }),
            final(self)@ == old(self)@.insert(label@, state),
    {
        let ghost entry = WindowView { label: label@, state };
        self.windows.push(WindowHandle { label, state });
        proof {
            assert(self.entries() =~= old(self).entries().push(entry));
            lemma_push(old(self).entries(), entry);
        }
    }
}

/// What became of a focus request that the platform could not honour.
#[derive(Debug)]
pub struct FocusFallback {
    /// The failure, for the log.  It is never handed to the caller of the
    /// open-or-focus request.
    pub logged: WindowError,
    /// The step that remains: `Some(OpenStep::Create)` where the window is
    /// gone and has to be built anew, `None` where nothing remains.
    pub step: Option<OpenStep>,
}

impl WindowRegistry {
    fn open(&mut self, key: String, kind: WindowKind, visible: bool) -> (step: OpenStep)
        requires
            old(self).wf(),
        ensures
            final(self).wf(),
            final(self).live_count(key@) == 1,
            step == open_step(old(self)@, key@),
            final(self)@ == opened(old(self)@, key@, kind, visible),
            final(self).entries().len() == old(self).entries().len() + if step == OpenStep::Create {
                1int
            } else {
                0int
            },
    {
        let ghost label = key@;
        let step = match self.find(&key) {
            Some(i) => {
                proof {
                    lemma_position(self.entries(), i as int);
                }
                let state = self.windows[i].state;
                self.put_state(i, WindowState { visible: true, focused: true, ..state });
                OpenStep::Focus
            },
            None => {
                self.put_in(
                    key,
                    WindowState { kind, visible, always_on_top: false, focused: visible },
                );
                OpenStep::Create
            },
        };
        proof {
            assert(self@.contains_key(label));
            assert(has_label(self.entries(), label));
            lemma_count(self.entries(), label);
        }
        step
    }

    /// Opens the window `label`, or brings it to the front if it is live.
    ///
    /// The check for a live window and the taking of the label happen in
    /// this one call, so two requests for one label never both get
    /// `OpenStep::Create`: the second finds the label taken.  A window that
    /// was hidden is shown again.
    pub fn open_or_focus(&mut self, label: &str, kind: WindowKind, config: &WindowConfig) -> (step:
        OpenStep)
        requires
            old(self).wf(),
        ensures
            final(self).wf(),
            final(self).live_count(label@) == 1,
            step == open_step(old(self)@, label@),
            final(self)@ == opened(old(self)@, label@, kind, config.visible),
            final(self).entries().len() == old(self).entries().len() + if step == OpenStep::Create {
                1int
            } else {
                0int
            },
    {
        self.open(label.to_owned(), kind, config.visible)
    }

    /// Registers a window that the platform built on its own account, shown
    /// and focused.  Where the label is taken, the live window is raised.
    pub fn adopt(&mut self, label: &str, kind: WindowKind) -> (step: OpenStep)
        requires
            old(self).wf(),
        ensures
            final(self).wf(),
            final(self).live_count(label@) == 1,
            step == open_step(old(self)@, label@),
            final(self)@ == opened(old(self)@, label@, kind, true),
    {
        self.open(label.to_owned(), kind, true)
    }

    /// Shows the window `label` and brings it to the front.  The result
    /// tells whether the window is registered.
    pub fn raise_window(&mut self, label: &str) -> (found: bool)
        requires
            old(self).wf(),
        ensures
            final(self).wf(),
            found == old(self)@.contains_key(label@),
            final(self)@ == if found {
                old(self)@.insert(label@, raised(old(self)@[label@]))
            } else {
                old(self)@
            },
    {
        let key = label.to_owned();
        match self.find(&key) {
            Some(i) => {
                proof {
                    lemma_position(self.entries(), i as int);
                }
                let state = self.windows[i].state;
                self.put_state(i, WindowState { visible: true, focused: true, ..state });
                true
            },
            None => false,
        }
    }

    /// Takes the window `label` out of the registry.  The result tells
    /// whether there was one, and so whether the platform has a window to
    /// destroy; closing a label without a live window changes nothing.
    pub fn close(&mut self, label: &str) -> (removed: bool)
        requires
            old(self).wf(),
        ensures
            final(self).wf(),
            removed == old(self)@.contains_key(label@),
            final(self)@ == old(self)@.remove(label@),
            final(self).live_count(label@) == 0,
    {
        let key = label.to_owned();
        let removed = match self.find(&key) {
            Some(i) => {
                let _ = self.take_out(i);
                true
            },
            None => {
                assert(self@ =~= self@.remove(label@));
                false
            },
        };
        proof {
            assert(!self@.contains_key(label@));
            assert(!has_label(self.entries(), label@));
            lemma_count(self.entries(), label@);
        }
        removed
    }

    /// Records that the platform could not build the window `label`: the
    /// label is free again, and the caller gets the error to pass on.
    pub fn creation_failed(&mut self, label: &str, reason: String) -> (error: WindowError)
        requires
            old(self).wf(),
        ensures
            final(self).wf(),
            error == WindowError::CreationFailed(reason),
            final(self)@ == old(self)@.remove(label@),
    {
        self.close(label);
        WindowError::CreationFailed(reason)
    }

    /// Records that the platform could not bring the window `label` to the
    /// front.  The failure is for the log only.  Where the window still
    /// exists it stays registered, unfocused.  Where it is gone
    /// (`window_lost`), the label counts as free and is taken anew with
    /// `kind` and `config`: the platform has to build the window.
    pub fn focus_failed(
        &mut self,
        label: &str,
        kind: WindowKind,
        config: &WindowConfig,
        reason: String,
        window_lost: bool,
    ) -> (fallback: FocusFallback)
        requires
            old(self).wf(),
        ensures
            final(self).wf(),
            fallback.logged == WindowError::FocusFailed(reason),
            window_lost ==> {
                &&& fallback.step == Some(OpenStep::Create)
                &&& final(self)@ == old(self)@.insert(label@, fresh_state(kind, config.visible))
                &&& final(self).live_count(label@) == 1
            },
            !window_lost ==> {
                &&& fallback.step is None
                &&& final(self)@ == if old(self)@.contains_key(label@) {
                    old(self)@.insert(
                        label@,
                        WindowState { focused: false, ..old(self)@[label@] },
                    )
                } else {
                    old(self)@
                }
            },
    {
        if window_lost {
            self.close(label);
            let step = self.open_or_focus(label, kind, config);
            assert(self@ =~= old(self)@.insert(label@, fresh_state(kind, config.visible)));
            assert(step == OpenStep::Create);
            FocusFallback { logged: WindowError::FocusFailed(reason), step: Some(step) }
        } else {
            let key = label.to_owned();
            match self.find(&key) {
                Some(i) => {
                    proof {
                        lemma_position(self.entries(), i as int);
                    }
                    let state = self.windows[i].state;
                    self.put_state(i, WindowState { focused: false, ..state });
                },
                None => {},
            }
            FocusFallback { logged: WindowError::FocusFailed(reason), step: None }
        }
    }

    /// Takes the window `label` off the screen without destroying it.  The
    /// result tells whether the window is registered.
    pub fn hide_window(&mut self, label: &str) -> (found: bool)
        requires
            old(self).wf(),
        ensures
            final(self).wf(),
            found == old(self)@.contains_key(label@),
            final(self)@ == if found {
                old(self)@.insert(label@, hidden(old(self)@[label@]))
            } else {
                old(self)@
            },
    {
        let key = label.to_owned();
        match self.find(&key) {
            Some(i) => {
                proof {
                    lemma_position(self.entries(), i as int);
                }
                let state = self.windows[i].state;
                self.put_state(i, WindowState { visible: false, focused: false, ..state });
                true
            },
            None => false,
        }
    }

    /// Pins the window `label` above other windows, or releases it.  The
    /// result tells whether the window is registered.
    pub fn set_always_on_top(&mut self, label: &str, always_on_top: bool) -> (found: bool)
        requires
            old(self).wf(),
        ensures
            final(self).wf(),
            found == old(self)@.contains_key(label@),
            final(self)@ == if found {
                old(self)@.insert(label@, WindowState { always_on_top, ..old(self)@[label@] })
            } else {
                old(self)@
            },
    {
        let key = label.to_owned();
        match self.find(&key) {
            Some(i) => {
                proof {
                    lemma_position(self.entries(), i as int);
                }
                let state = self.windows[i].state;
                self.put_state(i, WindowState { always_on_top, ..state });
                true
            },
            None => false,
        }
    }
}

/// Whatever was done to a well-formed registry, no label ever has more than
/// one live window: a label that is registered counts once, any other not
/// at all.
pub proof fn lemma_one_window_per_label(registry: WindowRegistry, label: Seq<char>)
    requires
        registry.wf(),
    ensures
        registry.live_count(label) <= 1,
        registry.live_count(label) == 1 <==> registry@.contains_key(label),
{
    lemma_count(registry.entries(), label);
}

/// The labels under which `windows` holds a window of the given kind.
pub open spec fn labels_of_kind(windows: Map<Seq<char>, WindowState>, kind: WindowKind) -> Set<
    Seq<char>,
> {
    Set::new(|label: Seq<char>| windows.contains_key(label) && windows[label].kind == kind)
}

/// The labels of a list of strings, as contracts see them.
pub open spec fn label_views(labels: Seq<String>) -> Seq<Seq<char>> {
    labels.map_values(|label: String| label@)
}

impl WindowRegistry {
    /// Takes every window of the given kind out of the registry and returns
    /// their labels, each once, for the platform to destroy.  Windows of
    /// other kinds stay as they are.
    pub fn close_kind(&mut self, kind: WindowKind) -> (closed: Vec<String>)
        requires
            old(self).wf(),
        ensures
            final(self).wf(),
            final(self)@ == old(self)@.remove_keys(labels_of_kind(old(self)@, kind)),
            label_views(closed@).no_duplicates(),
            label_views(closed@).to_set() == labels_of_kind(old(self)@, kind),
    {
        let mut closed: Vec<String> = Vec::new();
        let mut i: usize = 0;
        proof {
            assert(label_views(closed@).to_set() =~= Set::<Seq<char>>::empty());
            assert(self@ =~= old(self)@.remove_keys(label_views(closed@).to_set()));
        }
        while i < self.windows.len()
            invariant
                self.wf(),
                i <= self.entries().len(),
                self.entries().len() == self.windows.len(),
                forall|j: int| 0 <= j < i ==> (#[trigger] self.entries()[j]).state.kind != kind,
                label_views(closed@).no_duplicates(),
                forall|l: Seq<char>| #[trigger]
                    label_views(closed@).contains(l) ==> labels_of_kind(old(self)@, kind).contains(
                        l,
                    ),
                self@ == old(self)@.remove_keys(label_views(closed@).to_set()),
            decreases self.windows.len() - i,
        {
            if self.windows[i].state.kind == kind {
                let ghost before = self.entries();
                let ghost before_map = self@;
                let ghost done = label_views(closed@);
                proof {
                    lemma_position(before, i as int);
                }
                let label = self.take_out(i);
                closed.push(label);
                proof {
                    let l = before[i as int].label;
                    let now = label_views(closed@);
                    assert(now =~= done.push(l));
                    assert(before_map.contains_key(l));
                    assert(!done.to_set().contains(l));
                    assert(!done.contains(l));
                    assert forall|a: int, b: int| 0 <= a < b < now.len() implies now[a] != now[b] by {
                        if b == done.len() {
                            assert(done.contains(done[a]));
                        }
                    }
                    assert forall|x: Seq<char>| #[trigger] now.contains(x) implies labels_of_kind(
                        old(self)@,
                        kind,
                    ).contains(x) by {
                        let k = choose|k: int| 0 <= k < now.len() && now[k] == x;
                        if k < done.len() {
                            assert(done.contains(done[k]));
                        } else {
                            assert(before_map[l] == before[i as int].state);
                            assert(before[i as int].state.kind == kind);
                            assert(old(self)@.contains_key(l));
                            assert(old(self)@[l] == before_map[l]);
                        }
                    }
                    assert forall|x: Seq<char>| now.to_set().contains(x) <==> (done.to_set().contains(
                        x,
                    ) || x == l) by {
                        if done.contains(x) {
                            let k = choose|k: int| 0 <= k < done.len() && done[k] == x;
                            assert(now[k] == x);
                        }
                        if x == l {
                            assert(now[done.len() as int] == x);
                        }
                        if now.contains(x) {
                            let k = choose|k: int| 0 <= k < now.len() && now[k] == x;
                            if k < done.len() {
                                assert(done[k] == x);
                            }
                        }
                    }
                    assert(self@ =~= old(self)@.remove_keys(now.to_set()));
                    assert forall|j: int| 0 <= j < i implies (#[trigger] self.entries()[j]).state.kind
                        != kind by {
                        assert(self.entries()[j] == before[j]);
                    }
                }
            } else {
                i += 1;
            }
        }
        proof {
            let done = label_views(closed@);
            assert forall|x: Seq<char>| labels_of_kind(old(self)@, kind).contains(x) implies done.to_set().contains(
                x,
            ) by {
                if !done.to_set().contains(x) {
                    assert(self@.contains_key(x));
                    assert(has_label(self.entries(), x));
                    let p = position(self.entries(), x);
                    assert(self@[x] == self.entries()[p].state);
                    assert(self@[x] == old(self)@[x]);
                    assert(self.entries()[p].state.kind != kind);
                }
            }
            assert(done.to_set() =~= labels_of_kind(old(self)@, kind));
        }
        closed
    }
}

/// Opening is idempotent in what it registers: after one request the label
/// is taken, so a second request only raises the window and registers
/// nothing new.
pub proof fn lemma_open_twice_registers_once(
    windows: Map<Seq<char>, WindowState>,
    label: Seq<char>,
    kind: WindowKind,
    visible: bool,
)
    ensures
        open_step(opened(windows, label, kind, visible), label) == OpenStep::Focus,
        opened(opened(windows, label, kind, visible), label, kind, visible).dom() == opened(
            windows,
            label,
            kind,
            visible,
        ).dom(),
        opened(opened(windows, label, kind, visible), label, kind, visible)[label] == raised(
            opened(windows, label, kind, visible)[label],
        ),
{
    let once = opened(windows, label, kind, visible);
    assert(once.contains_key(label));
    assert(opened(once, label, kind, visible).dom() =~= once.dom());
}

} // verus!
