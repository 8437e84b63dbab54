use steward::commands::greet;
use steward::error::WindowError;
use steward::schema::{
    is_ordered, migrations, Migration, MigrationKind, CREATE_KEYBINDS_TABLE,
    CREATE_SETTINGS_TABLE, DATABASE_URL,
};

#[test]
fn greet_names_the_caller() {
    assert_eq!(greet("Ada"), "Hello, Ada! You've been greeted from Rust!");
}

#[test]
fn greet_with_empty_and_non_ascii_names() {
    assert_eq!(greet(""), "Hello, ! You've been greeted from Rust!");
    assert_eq!(greet("Zo\u{eb}"), "Hello, Zo\u{eb}! You've been greeted from Rust!");
}

#[test]
fn error_messages() {
    assert_eq!(
        WindowError::CreationFailed(String::from("no memory")).message(),
        "Failed to create window: no memory"
    );
    assert_eq!(
        WindowError::FocusFailed(String::from("minimised")).message(),
        "Failed to focus window: minimised"
    );
    assert_eq!(
        WindowError::InvalidTarget.message(),
        "Window does not support click-through regions"
    );
    assert_eq!(WindowError::InvalidRegion.message(), "Region width and height must be positive");
}

#[test]
fn migrations_are_the_two_tables_in_order() {
    let list = migrations();
    assert_eq!(list.len(), 2);
    assert_eq!(list[0].version, 1);
    assert_eq!(list[0].description, "create_settings_table");
    assert_eq!(list[0].sql, CREATE_SETTINGS_TABLE);
    assert_eq!(list[0].kind, MigrationKind::Up);
    assert_eq!(list[1].version, 2);
    assert_eq!(list[1].description, "create_keybinds_table");
    assert_eq!(list[1].sql, CREATE_KEYBINDS_TABLE);
    assert_eq!(list[1].kind, MigrationKind::Up);
    assert!(is_ordered(&list));
}

#[test]
fn schema_text() {
    assert_eq!(DATABASE_URL, "sqlite:steward.db");
    assert!(CREATE_SETTINGS_TABLE.starts_with("CREATE TABLE settings ("));
    assert!(CREATE_SETTINGS_TABLE.contains("key TEXT PRIMARY KEY,"));
    assert!(CREATE_SETTINGS_TABLE.contains("value TEXT NOT NULL,"));
    assert!(CREATE_SETTINGS_TABLE.contains("updated_at DATETIME DEFAULT CURRENT_TIMESTAMP"));
    assert!(CREATE_KEYBINDS_TABLE.starts_with("CREATE TABLE keybinds ("));
    assert!(CREATE_KEYBINDS_TABLE.contains("key_combination TEXT PRIMARY KEY,"));
    assert!(CREATE_KEYBINDS_TABLE.contains("command TEXT NOT NULL,"));
    assert!(CREATE_KEYBINDS_TABLE.contains("created_at DATETIME DEFAULT CURRENT_TIMESTAMP"));
}

#[test]
fn order_check_on_other_lists() {
    let step = |version: i64| Migration {
        version,
        description: "step",
        sql: "SELECT 1;",
        kind: MigrationKind::Up,
    };
    assert!(is_ordered(&vec![]));
    assert!(is_ordered(&vec![step(7)]));
    assert!(is_ordered(&vec![step(1), step(2), step(10)]));
    assert!(!is_ordered(&vec![step(1), step(1)]));
    assert!(!is_ordered(&vec![step(2), step(1)]));
    assert!(!is_ordered(&vec![step(1), step(3), step(2)]));
}
