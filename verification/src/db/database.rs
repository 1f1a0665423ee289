//! An open history database: opening and configuring it, reads, transactional
//! writes, and storing a capture together with the history limit.
use vstd::prelude::*;

use rusqlite::Connection;

use crate::db::clipboard_repo::{new_entry_fits, ClipboardRepository};
use crate::db::error::{DbError, DbResult};
use crate::db::migrate;
use crate::db::settings_repo::SettingsRepository;
use crate::db::sql::{
    begin_transaction, commit, is_uuid_v4_text, open_file, open_in_memory, pragma_update,
    query_text, transaction_connection,
};
use crate::models::{
    AppSettings, ClipboardFilter, ClipboardItem, ClipboardItemType, NewClipboardItem, SaveOutcome,
};

verus! {

/// Connection settings: foreign keys on, a busy timeout of 5 s, secure deletion,
/// normal synchronisation, and for a database on disk a write-ahead journal.
pub fn configure(conn: &Connection, persistent: bool) -> (r: Result<(), rusqlite::Error>) {
    match pragma_update(conn, "foreign_keys", "ON") {
        Ok(()) => {},
        Err(e) => return Err(e),
    }
    match pragma_update(conn, "busy_timeout", "5000") {
        Ok(()) => {},
        Err(e) => return Err(e),
    }
    match pragma_update(conn, "secure_delete", "ON") {
        Ok(()) => {},
        Err(e) => return Err(e),
    }
    match pragma_update(conn, "synchronous", "NORMAL") {
        Ok(()) => {},
        Err(e) => return Err(e),
    }
    if persistent {
        match query_text(conn, "PRAGMA journal_mode = WAL") {
            Ok(_) => {},
            Err(e) => return Err(e),
        }
    }
    Ok(())
}

/// What storing a capture gave: `Duplicate` evicts nothing; a new entry carries
/// the capture's type and text, its normalized text, its preview, is not pinned
/// and has a random id.
pub open spec fn save_result_fits(
    new_item: NewClipboardItem,
    outcome: SaveOutcome,
    evicted: Seq<ClipboardItem>,
) -> bool {
    match outcome {
        SaveOutcome::Duplicate => evicted.len() == 0,
        SaveOutcome::Inserted(item) => new_entry_fits(item, new_item) && is_uuid_v4_text(item.id@),
    }
}

/// Stores a capture; when it was new, evicts the entries over the history limit.
/// Gives the outcome and the evicted entries.
pub fn save_with(conn: &Connection, new_item: NewClipboardItem) -> (r: DbResult<
    (SaveOutcome, Vec<ClipboardItem>),
>)
    ensures
        r matches Ok((outcome, evicted)) ==> save_result_fits(new_item, outcome, evicted@),
        r matches Err(e) ==> e is Sqlite,
{
    let clipboard = ClipboardRepository::new(conn);
    let outcome = match clipboard.insert(new_item) {
        Ok(o) => o,
        Err(e) => return Err(e),
    };
    let evicted = match outcome {
        SaveOutcome::Inserted(_) => {
            let settings = match SettingsRepository::new(conn).get() {
                Ok(s) => s,
                Err(e) => return Err(e),
            };
            match clipboard.enforce_max_history(settings.max_history_size) {
                Ok(v) => v,
                Err(e) => return Err(e),
            }
        },
        SaveOutcome::Duplicate => Vec::new(),
    };
    Ok((outcome, evicted))
}

/// Deletes the entry with `id` and gives it back (so that its image file can be
/// removed); `NotFound` when there is none.
pub fn delete_with(conn: &Connection, id: &str) -> (r: DbResult<ClipboardItem>)
    ensures
        r matches Ok(item) ==> item.id@ == id@,
        r matches Err(e) ==> (e is Sqlite || e is NotFound),
{
    let repo = ClipboardRepository::new(conn);
    let item = match repo.get(id) {
        Ok(item) => item,
        Err(e) => return Err(e),
    };
    match repo.delete(id) {
        Ok(()) => Ok(item),
        Err(e) => Err(e),
    }
}

/// Stores new settings, then evicts the entries over the (possibly lowered)
/// history limit; gives the stored settings and the evicted entries.
pub fn update_settings_with(conn: &Connection, settings: &AppSettings) -> (r: DbResult<
    (AppSettings, Vec<ClipboardItem>),
>)
    ensures
        r matches Err(e) ==> e is Sqlite,
{
    let stored = match SettingsRepository::new(conn).update(settings) {
        Ok(s) => s,
        Err(e) => return Err(e),
    };
    match ClipboardRepository::new(conn).enforce_max_history(stored.max_history_size) {
        Ok(evicted) => Ok((stored, evicted)),
        Err(e) => Err(e),
    }
}

/// The monitoring switch from the stored settings; on when they cannot be read.
pub fn monitoring_or_default(settings: &DbResult<AppSettings>) -> (r: bool)
    ensures
        r == match settings {
            Ok(s) => s.enable_monitoring,
            Err(_) => true,
        },
{
    match settings {
        Ok(s) => s.enable_monitoring,
        Err(_) => true,
    }
}

/// The start-with-the-system switch from the stored settings; on when they cannot
/// be read.
pub fn launch_or_default(settings: &DbResult<AppSettings>) -> (r: bool)
    ensures
        r == match settings {
            Ok(s) => s.launch_on_startup,
            Err(_) => true,
        },
{
    match settings {
        Ok(s) => s.launch_on_startup,
        Err(_) => true,
    }
}

pub struct Database {
    conn: Connection,
}

impl Database {
    /// Opens (creating if needed) the database file at `path`, configured for disk
    /// and migrated to the current schema.
    pub fn open_path(path: &str) -> (r: DbResult<Self>)
        ensures
            r matches Err(e) ==> e is Sqlite,
    {
        let conn = match open_file(path) {
            Ok(c) => c,
            Err(e) => return Err(DbError::Sqlite(e)),
        };
        match configure(&conn, true) {
            Ok(()) => {},
            Err(e) => return Err(DbError::Sqlite(e)),
        }
        match migrate::apply(&conn) {
            Ok(()) => {},
            Err(e) => return Err(DbError::Sqlite(e)),
        }
        Ok(Database { conn })
    }

    /// Opens a fresh database in memory, migrated to the current schema.
    pub fn open_in_memory() -> (r: DbResult<Self>)
        ensures
            r matches Err(e) ==> e is Sqlite,
    {
        let conn = match open_in_memory() {
            Ok(c) => c,
            Err(e) => return Err(DbError::Sqlite(e)),
        };
        match configure(&conn, false) {
            Ok(()) => {},
            Err(e) => return Err(DbError::Sqlite(e)),
        }
        match migrate::apply(&conn) {
            Ok(()) => {},
            Err(e) => return Err(DbError::Sqlite(e)),
        }
        Ok(Database { conn })
    }

    /// Runs `f` on the connection.
    pub fn read<T, F: FnOnce(&Connection) -> DbResult<T>>(&self, f: F) -> (r: DbResult<T>)
        requires
            forall|c: &Connection| call_requires(f, (c,)),
        ensures
            exists|c: &Connection| call_ensures(f, (c,), r),
    {
        f(&self.conn)
    }

    /// Runs `f` in a transaction, committed when `f` succeeds and rolled back
    /// when it fails.
    pub fn write<T, F: FnOnce(&Connection) -> DbResult<T>>(&self, f: F) -> (r: DbResult<T>)
        requires
            forall|c: &Connection| call_requires(f, (c,)),
        ensures
            r matches Ok(v) ==> exists|c: &Connection| call_ensures(f, (c,), Ok(v)),
            r matches Err(e) ==> (e is Sqlite || exists|c: &Connection| call_ensures(f, (c,), Err(e))),
    {
        let tx = match begin_transaction(&self.conn) {
            Ok(tx) => tx,
            Err(e) => return Err(DbError::Sqlite(e)),
        };
        let result = f(transaction_connection(&tx));
        match result {
            Ok(v) => match commit(tx) {
                Ok(()) => Ok(v),
                Err(e) => Err(DbError::Sqlite(e)),
            },
            Err(e) => Err(e),
        }
    }

    /// Stores a capture in one transaction (see `save_with`); the entries evicted
    /// by the history limit are given back so that their image files can be
    /// removed.
    pub fn save_clipboard_item(&self, new_item: NewClipboardItem) -> (r: DbResult<
        (SaveOutcome, Vec<ClipboardItem>),
    >)
        ensures
            r matches Ok((outcome, evicted)) ==> save_result_fits(new_item, outcome, evicted@),
            r matches Err(e) ==> e is Sqlite,
    {
        let tx = match begin_transaction(&self.conn) {
            Ok(tx) => tx,
            Err(e) => return Err(DbError::Sqlite(e)),
        };
        let result = save_with(transaction_connection(&tx), new_item);
        match result {
            Ok(v) => match commit(tx) {
                Ok(()) => Ok(v),
                Err(e) => Err(DbError::Sqlite(e)),
            },
            Err(e) => Err(e),
        }
    }

    /// Deletes an entry in one transaction and gives it back.
    pub fn delete_item(&self, id: &str) -> (r: DbResult<ClipboardItem>)
        ensures
            r matches Ok(item) ==> item.id@ == id@,
            r matches Err(e) ==> (e is Sqlite || e is NotFound),
    {
        let tx = match begin_transaction(&self.conn) {
            Ok(tx) => tx,
            Err(e) => return Err(DbError::Sqlite(e)),
        };
        let result = delete_with(transaction_connection(&tx), id);
        match result {
            Ok(v) => match commit(tx) {
                Ok(()) => Ok(v),
                Err(e) => Err(DbError::Sqlite(e)),
            },
            Err(e) => Err(e),
        }
    }

    /// Deletes every entry; gives how many there were and the image entries among
    /// them (read before the deletion), so that their files can be removed.
    pub fn clear_history(&self) -> (r: DbResult<(usize, Vec<ClipboardItem>)>)
        ensures
            r matches Ok((_, images)) ==> forall|i: int|
                0 <= i < images.len() ==> (#[trigger] images[i]).item_type == ClipboardItemType::Image,
            r matches Err(e) ==> e is Sqlite,
    {
        let images = match ClipboardRepository::new(&self.conn).list(
            ClipboardFilter::Image,
            Some(u32::MAX),
        ) {
            Ok(v) => v,
            Err(e) => return Err(e),
        };
        let tx = match begin_transaction(&self.conn) {
            Ok(tx) => tx,
            Err(e) => return Err(DbError::Sqlite(e)),
        };
        let result = ClipboardRepository::new(transaction_connection(&tx)).clear();
        match result {
            Ok(deleted) => match commit(tx) {
                Ok(()) => Ok((deleted, images)),
                Err(e) => Err(DbError::Sqlite(e)),
            },
            Err(e) => Err(e),
        }
    }

    /// Stores new settings and applies the history limit, in one transaction.
    pub fn update_settings(&self, settings: &AppSettings) -> (r: DbResult<
        (AppSettings, Vec<ClipboardItem>),
    >)
        ensures
            r matches Err(e) ==> e is Sqlite,
    {
        let tx = match begin_transaction(&self.conn) {
            Ok(tx) => tx,
            Err(e) => return Err(DbError::Sqlite(e)),
        };
        let result = update_settings_with(transaction_connection(&tx), settings);
        match result {
            Ok(v) => match commit(tx) {
                Ok(()) => Ok(v),
                Err(e) => Err(DbError::Sqlite(e)),
            },
            Err(e) => Err(e),
        }
    }

    /// The stored settings.
    pub fn settings(&self) -> (r: DbResult<AppSettings>)
        ensures
            r matches Err(e) ==> e is Sqlite,
    {
        SettingsRepository::new(&self.conn).get()
    }

    /// Whether the monitor records the clipboard: the stored setting, and yes
    /// when the settings cannot be read.
    pub fn monitoring_enabled(&self) -> (r: bool) {
        monitoring_or_default(&self.settings())
    }

    /// Whether the application starts with the system: the stored setting, and
    /// yes when the settings cannot be read.
    pub fn launch_on_startup(&self) -> (r: bool) {
        launch_or_default(&self.settings())
    }
}

} // verus!
