use steward::error::WindowError;
use steward::registry::{OpenStep, WindowConfig, WindowKind, WindowRegistry, WindowState};

fn config(visible: bool) -> WindowConfig {
    WindowConfig {
        title: String::from("A window"),
        width: 800,
        height: 600,
        min_width: 100,
        min_height: 100,
        max_width: 1600,
        max_height: 1200,
        center: true,
        resizable: true,
        decorations: true,
        visible,
    }
}

#[test]
fn new_registry_is_empty() {
    let registry = WindowRegistry::new();
    assert_eq!(registry.len(), 0);
    assert!(!registry.contains("settings"));
    assert_eq!(registry.state("settings"), None);
}

#[test]
fn opening_a_free_label_asks_for_creation() {
    let mut registry = WindowRegistry::new();
    let step = registry.open_or_focus("settings", WindowKind::Settings, &config(true));
    assert_eq!(step, OpenStep::Create);
    assert_eq!(registry.len(), 1);
    assert_eq!(
        registry.state("settings"),
        Some(WindowState {
            kind: WindowKind::Settings,
            visible: true,
            always_on_top: false,
            focused: true,
        })
    );
}

#[test]
fn opening_invisible_window_is_neither_shown_nor_focused() {
    let mut registry = WindowRegistry::new();
    registry.open_or_focus("toolbar", WindowKind::Toolbar, &config(false));
    assert_eq!(
        registry.state("toolbar"),
        Some(WindowState {
            kind: WindowKind::Toolbar,
            visible: false,
            always_on_top: false,
            focused: false,
        })
    );
}

#[test]
fn opening_twice_focuses_the_one_window() {
    let mut registry = WindowRegistry::new();
    assert_eq!(
        registry.open_or_focus("settings", WindowKind::Settings, &config(true)),
        OpenStep::Create
    );
    assert_eq!(
        registry.open_or_focus("settings", WindowKind::Settings, &config(true)),
        OpenStep::Focus
    );
    assert_eq!(registry.len(), 1);
    assert!(registry.contains("settings"));
}

#[test]
fn many_requests_for_many_labels_register_each_once() {
    let labels = ["a", "b", "c", "a", "c", "a", "b", "d", ""];
    let mut registry = WindowRegistry::new();
    let mut creations = 0;
    for round in 0..3 {
        for label in labels {
            let step = registry.open_or_focus(label, WindowKind::Settings, &config(round == 1));
            if step == OpenStep::Create {
                creations += 1;
            }
        }
    }
    assert_eq!(creations, 5);
    assert_eq!(registry.len(), 5);
}

#[test]
fn focusing_keeps_kind_and_shows_hidden_window() {
    let mut registry = WindowRegistry::new();
    registry.open_or_focus("main", WindowKind::Main, &config(true));
    assert!(registry.hide_window("main"));
    assert_eq!(
        registry.state("main"),
        Some(WindowState {
            kind: WindowKind::Main,
            visible: false,
            always_on_top: false,
            focused: false,
        })
    );
    let step = registry.open_or_focus("main", WindowKind::Settings, &config(false));
    assert_eq!(step, OpenStep::Focus);
    assert_eq!(
        registry.state("main"),
        Some(WindowState {
            kind: WindowKind::Main,
            visible: true,
            always_on_top: false,
            focused: true,
        })
    );
}

#[test]
fn close_removes_and_is_idempotent() {
    let mut registry = WindowRegistry::new();
    registry.open_or_focus("settings", WindowKind::Settings, &config(true));
    registry.open_or_focus("toolbar", WindowKind::Toolbar, &config(true));
    assert!(registry.close("settings"));
    assert!(!registry.contains("settings"));
    assert!(registry.contains("toolbar"));
    assert_eq!(registry.len(), 1);
    assert!(!registry.close("settings"));
    assert!(!registry.close("never-opened"));
    assert_eq!(registry.len(), 1);
}

#[test]
fn closed_label_can_be_opened_again() {
    let mut registry = WindowRegistry::new();
    registry.open_or_focus("settings", WindowKind::Settings, &config(true));
    registry.close("settings");
    assert_eq!(
        registry.open_or_focus("settings", WindowKind::Settings, &config(true)),
        OpenStep::Create
    );
    assert_eq!(registry.len(), 1);
}

#[test]
fn creation_failure_frees_the_label_and_carries_the_reason() {
    let mut registry = WindowRegistry::new();
    registry.open_or_focus("main", WindowKind::Main, &config(true));
    registry.open_or_focus("settings", WindowKind::Settings, &config(true));
    let error = registry.creation_failed("settings", String::from("out of handles"));
    assert_eq!(error, WindowError::CreationFailed(String::from("out of handles")));
    assert!(!registry.contains("settings"));
    assert!(registry.contains("main"));
    assert_eq!(
        registry.open_or_focus("settings", WindowKind::Settings, &config(true)),
        OpenStep::Create
    );
}

#[test]
fn focus_failure_on_live_window_is_only_logged() {
    let mut registry = WindowRegistry::new();
    registry.open_or_focus("settings", WindowKind::Settings, &config(true));
    registry.open_or_focus("settings", WindowKind::Settings, &config(true));
    let fallback = registry.focus_failed(
        "settings",
        WindowKind::Settings,
        &config(true),
        String::from("busy"),
        false,
    );
    assert_eq!(fallback.logged, WindowError::FocusFailed(String::from("busy")));
    assert_eq!(fallback.step, None);
    assert_eq!(registry.len(), 1);
    assert_eq!(
        registry.state("settings"),
        Some(WindowState {
            kind: WindowKind::Settings,
            visible: true,
            always_on_top: false,
            focused: false,
        })
    );
}

#[test]
fn focus_failure_on_lost_window_creates_anew() {
    let mut registry = WindowRegistry::new();
    registry.open_or_focus("settings", WindowKind::Settings, &config(true));
    registry.set_always_on_top("settings", true);
    let fallback = registry.focus_failed(
        "settings",
        WindowKind::Settings,
        &config(false),
        String::from("no such window"),
        true,
    );
    assert_eq!(fallback.logged, WindowError::FocusFailed(String::from("no such window")));
    assert_eq!(fallback.step, Some(OpenStep::Create));
    assert_eq!(registry.len(), 1);
    assert_eq!(
        registry.state("settings"),
        Some(WindowState {
            kind: WindowKind::Settings,
            visible: false,
            always_on_top: false,
            focused: false,
        })
    );
}

#[test]
fn focus_failure_for_unknown_label() {
    let mut registry = WindowRegistry::new();
    let kept = registry.focus_failed(
        "ghost",
        WindowKind::Settings,
        &config(true),
        String::from("x"),
        false,
    );
    assert_eq!(kept.step, None);
    assert_eq!(registry.len(), 0);
    let made = registry.focus_failed(
        "ghost",
        WindowKind::Settings,
        &config(true),
        String::from("x"),
        true,
    );
    assert_eq!(made.step, Some(OpenStep::Create));
    assert_eq!(registry.len(), 1);
}

#[test]
fn hide_raise_and_pin() {
    let mut registry = WindowRegistry::new();
    registry.open_or_focus("toolbar", WindowKind::Toolbar, &config(true));
    assert!(registry.set_always_on_top("toolbar", true));
    assert!(registry.hide_window("toolbar"));
    assert_eq!(
        registry.state("toolbar"),
        Some(WindowState {
            kind: WindowKind::Toolbar,
            visible: false,
            always_on_top: true,
            focused: false,
        })
    );
    assert!(registry.raise_window("toolbar"));
    assert_eq!(
        registry.state("toolbar"),
        Some(WindowState {
            kind: WindowKind::Toolbar,
            visible: true,
            always_on_top: true,
            focused: true,
        })
    );
    assert!(registry.set_always_on_top("toolbar", false));
    assert_eq!(registry.state("toolbar").map(|s| s.always_on_top), Some(false));
    assert!(!registry.hide_window("absent"));
    assert!(!registry.raise_window("absent"));
    assert!(!registry.set_always_on_top("absent", true));
    assert_eq!(registry.len(), 1);
}

#[test]
fn adopt_registers_a_shown_window() {
    let mut registry = WindowRegistry::new();
    assert_eq!(registry.adopt("main", WindowKind::Main), OpenStep::Create);
    assert_eq!(
        registry.state("main"),
        Some(WindowState {
            kind: WindowKind::Main,
            visible: true,
            always_on_top: false,
            focused: true,
        })
    );
    assert_eq!(registry.adopt("main", WindowKind::Toolbar), OpenStep::Focus);
    assert_eq!(registry.state("main").map(|s| s.kind), Some(WindowKind::Main));
    assert_eq!(registry.len(), 1);
}

#[test]
fn close_kind_removes_exactly_that_kind() {
    let mut registry = WindowRegistry::new();
    registry.open_or_focus("main", WindowKind::Main, &config(true));
    registry.open_or_focus("settings", WindowKind::Settings, &config(true));
    registry.open_or_focus("toolbar", WindowKind::Toolbar, &config(true));
    registry.open_or_focus("help", WindowKind::Settings, &config(true));
    registry.open_or_focus("settings-help", WindowKind::Settings, &config(false));
    let mut closed = registry.close_kind(WindowKind::Settings);
    closed.sort();
    assert_eq!(closed, vec!["help", "settings", "settings-help"]);
    assert_eq!(registry.len(), 2);
    assert!(registry.contains("main"));
    assert!(registry.contains("toolbar"));
    assert!(registry.close_kind(WindowKind::Settings).is_empty());
    assert_eq!(registry.len(), 2);
}

#[test]
fn labels_are_compared_exactly() {
    let mut registry = WindowRegistry::new();
    registry.open_or_focus("settings", WindowKind::Settings, &config(true));
    assert!(!registry.contains("Settings"));
    assert!(!registry.contains("settings "));
    assert!(!registry.contains("setting"));
    assert_eq!(
        registry.open_or_focus("settings-help", WindowKind::Settings, &config(true)),
        OpenStep::Create
    );
    assert_eq!(registry.len(), 2);
}

#[test]
fn get_hands_out_the_registered_handle() {
    let mut registry = WindowRegistry::new();
    registry.open_or_focus("settings", WindowKind::Settings, &config(false));
    let handle = registry.get("settings").expect("registered");
    assert_eq!(handle.label(), "settings");
    assert_eq!(
        handle.state(),
        WindowState {
            kind: WindowKind::Settings,
            visible: false,
            always_on_top: false,
            focused: false,
        }
    );
    assert!(registry.get("main").is_none());
}
