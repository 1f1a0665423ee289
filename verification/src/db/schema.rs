//! The database schema, as an ordered list of migrations.
use vstd::prelude::*;

verus! {

/// Entries, the full-text index kept in step with them by triggers, and the
/// single settings row with its defaults.
pub const INIT_SCHEMA_SQL: &'static str =
    "CREATE TABLE IF NOT EXISTS clipboard_items (
        id TEXT PRIMARY KEY NOT NULL,
        type TEXT NOT NULL,
        content TEXT NOT NULL,
        normalized_content TEXT NOT NULL,
        preview TEXT NOT NULL,
        pinned INTEGER NOT NULL DEFAULT 0,
        created_at INTEGER NOT NULL
    );
    CREATE INDEX IF NOT EXISTS idx_clipboard_items_created_at
        ON clipboard_items (created_at DESC);
    CREATE INDEX IF NOT EXISTS idx_clipboard_items_pinned
        ON clipboard_items (pinned, created_at);
    CREATE VIRTUAL TABLE IF NOT EXISTS clipboard_items_fts USING fts5(
        content,
        normalized_content,
        content = 'clipboard_items',
        content_rowid = 'rowid'
    );
    CREATE TRIGGER IF NOT EXISTS clipboard_items_after_insert AFTER INSERT ON clipboard_items BEGIN
        INSERT INTO clipboard_items_fts (rowid, content, normalized_content)
        VALUES (new.rowid, new.content, new.normalized_content);
    END;
    CREATE TRIGGER IF NOT EXISTS clipboard_items_after_delete AFTER DELETE ON clipboard_items BEGIN
        INSERT INTO clipboard_items_fts (clipboard_items_fts, rowid, content, normalized_content)
        VALUES ('delete', old.rowid, old.content, old.normalized_content);
    END;
    CREATE TRIGGER IF NOT EXISTS clipboard_items_after_update AFTER UPDATE ON clipboard_items BEGIN
        INSERT INTO clipboard_items_fts (clipboard_items_fts, rowid, content, normalized_content)
        VALUES ('delete', old.rowid, old.content, old.normalized_content);
        INSERT INTO clipboard_items_fts (rowid, content, normalized_content)
        VALUES (new.rowid, new.content, new.normalized_content);
    END;
    CREATE TABLE IF NOT EXISTS settings (
        id INTEGER PRIMARY KEY CHECK (id = 1),
        launch_on_startup INTEGER NOT NULL DEFAULT 1,
        enable_monitoring INTEGER NOT NULL DEFAULT 1,
        max_history_size INTEGER NOT NULL DEFAULT 10000
    );
    INSERT OR IGNORE INTO settings (id, launch_on_startup, enable_monitoring, max_history_size)
    VALUES (1, 1, 1, 10000);";

/// The full-text index rebuilt with prefix indexes, so that prefix queries on
/// short prefixes stay fast.
pub const FTS_PREFIX_SQL: &'static str =
    "DROP TABLE IF EXISTS clipboard_items_fts;
    CREATE VIRTUAL TABLE clipboard_items_fts USING fts5(
        content,
        normalized_content,
        content = 'clipboard_items',
        content_rowid = 'rowid',
        prefix = '2 3 4'
    );
    INSERT INTO clipboard_items_fts (clipboard_items_fts) VALUES ('rebuild');";

pub const MIGRATIONS_TABLE_SQL: &'static str =
    "CREATE TABLE IF NOT EXISTS schema_migrations (
            version INTEGER PRIMARY KEY,
            applied_at INTEGER NOT NULL
        )";

pub const RECORD_MIGRATION_SQL: &'static str =
    "INSERT INTO schema_migrations (version, applied_at) VALUES (?1, ?2)";

pub const APPLIED_MIGRATIONS_SQL: &'static str = "SELECT version FROM schema_migrations";

/// The migrations, in the order they are applied: version 1 creates the
/// entries, the full-text index and the settings; version 2 rebuilds the index
/// with prefix tables.
pub open spec fn migration_list() -> Seq<(i32, &'static str)> {
    seq![(1i32, INIT_SCHEMA_SQL), (2i32, FTS_PREFIX_SQL)]
}

/// The migrations: version number and statements, in order.
pub fn migrations() -> (r: Vec<(i32, &'static str)>)
    ensures
        r@ == migration_list(),
{
    let r = vec![(1, INIT_SCHEMA_SQL), (2, FTS_PREFIX_SQL)];
    assert(r@ =~= migration_list());
    r
}

} // verus!
