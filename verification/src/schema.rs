//! The schema of the persisted store, as an ordered list of migrations.
//! The store itself is kept by the platform layer.

use vstd::prelude::*;

verus! {

/// The store that the migrations are for.
pub const DATABASE_URL: &'static str = "sqlite:steward.db";

/// Creates the table of settings: a unique key, its value and the time of
/// the last update.
pub const CREATE_SETTINGS_TABLE: &'static str = "CREATE TABLE settings (
                key TEXT PRIMARY KEY,
                value TEXT NOT NULL,
                updated_at DATETIME DEFAULT CURRENT_TIMESTAMP
            );";

/// Creates the table of key bindings: a unique key combination, the
/// command it triggers and the time of its creation.
pub const CREATE_KEYBINDS_TABLE: &'static str = "CREATE TABLE keybinds (
                key_combination TEXT PRIMARY KEY,
                command TEXT NOT NULL,
                created_at DATETIME DEFAULT CURRENT_TIMESTAMP
            );";

/// The direction of a migration.
#[derive(Clone, Copy, Debug, PartialEq, Eq, Structural)]
pub enum MigrationKind {
    Up,
    Down,
}

/// One step of the schema.
#[derive(Clone, Copy, Debug)]
pub struct Migration {
    pub version: i64,
    pub description: &'static str,
    pub sql: &'static str,
    pub kind: MigrationKind,
}

/// The versions rise strictly from one migration to the next, so that each
/// version names one step and the steps have one order.
pub open spec fn strictly_ascending(list: Seq<Migration>) -> bool {
    forall|i: int, j: int|
        0 <= i < j < list.len() ==> (#[trigger] list[i]).version < (#[trigger] list[j]).version
}

/// The migrations of the store, in the order in which they apply.
pub fn migrations() -> (list: Vec<Migration>)
    ensures
        list@.len() == 2,
        strictly_ascending(list@),
        list@[0].version == 1,
        list@[0].description@ == "create_settings_table"@,
        list@[0].sql@ == CREATE_SETTINGS_TABLE@,
        list@[0].kind == MigrationKind::Up,
        list@[1].version == 2,
        list@[1].description@ == "create_keybinds_table"@,
        list@[1].sql@ == CREATE_KEYBINDS_TABLE@,
        list@[1].kind == MigrationKind::Up,
{
    let mut list: Vec<Migration> = Vec::new();
    list.push(
        Migration {
            version: 1,
            description: "create_settings_table",
            sql: CREATE_SETTINGS_TABLE,
            kind: MigrationKind::Up,
        },
    );
    list.push(
        Migration {
            version: 2,
            description: "create_keybinds_table",
            sql: CREATE_KEYBINDS_TABLE,
            kind: MigrationKind::Up,
        },
    );
    list
}

/// Whether the versions of `list` rise strictly.
pub fn is_ordered(list: &Vec<Migration>) -> (ordered: bool)
    ensures
        ordered == strictly_ascending(list@),
{
    if list.len() < 2 {
        return true;
    }
    let mut i: usize = 1;
    while i < list.len()
        invariant
            1 <= i <= list.len(),
            forall|a: int, b: int|
                0 <= a < b < i ==> (#[trigger] list@[a]).version < (#[trigger] list@[b]).version,
        decreases list.len() - i,
    {
        if list[i - 1].version >= list[i].version {
            return false;
        }
        assert forall|a: int, b: int| 0 <= a < b < i + 1 implies (#[trigger] list@[a]).version < (
        #[trigger] list@[b]).version by {
            if b == i && a < i - 1 {
                assert(list@[a].version < list@[i - 1].version);
            }
        }
        i += 1;
    }
    true
}

} // verus!
