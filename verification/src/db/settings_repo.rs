//! Reading and updating the single settings row.
use vstd::prelude::*;

use rusqlite::Connection;

use crate::db::clipboard_repo::{flag_of, flag_value};
use crate::db::error::{DbError, DbResult};
use crate::db::sql::{bind_values, execute, query_settings_row, SettingsRow};
use crate::models::AppSettings;

verus! {

pub const GET_SETTINGS_SQL: &'static str =
    "SELECT launch_on_startup, enable_monitoring, max_history_size
     FROM settings WHERE id = 1";

pub const UPDATE_SETTINGS_SQL: &'static str =
    "UPDATE settings
     SET launch_on_startup = ?1,
         enable_monitoring = ?2,
         max_history_size = ?3
     WHERE id = 1";

/// The settings read from a row: a flag is on when its stored value is not 0.
pub open spec fn settings_of_row(row: SettingsRow) -> AppSettings {
    AppSettings {
        launch_on_startup: row.0 != 0,
        enable_monitoring: row.1 != 0,
        max_history_size: row.2,
    }
}

pub fn settings_from_row(row: SettingsRow) -> (r: AppSettings)
    ensures
        r == settings_of_row(row),
{
    AppSettings {
        launch_on_startup: row.0 != 0,
        enable_monitoring: row.1 != 0,
        max_history_size: row.2,
    }
}

/// The values stored by an update: the two flags as 1 or 0, and the history
/// limit raised to at least 1.
pub open spec fn stored_values(s: AppSettings) -> Seq<i64> {
    seq![
        flag_value(s.launch_on_startup),
        flag_value(s.enable_monitoring),
        if s.max_history_size < 1 {
            1
        } else {
            s.max_history_size as i64
        },
    ]
}

pub fn update_values(settings: &AppSettings) -> (r: Vec<i64>)
    ensures
        r@ == stored_values(*settings),
{
    let max_history_size: u32 = if settings.max_history_size < 1 {
        1
    } else {
        settings.max_history_size
    };
    let r = vec![
        flag_of(settings.launch_on_startup),
        flag_of(settings.enable_monitoring),
        max_history_size as i64,
    ];
    assert(r@ =~= stored_values(*settings));
    r
}

/// Storing settings and reading them back keeps them, except that a history limit
/// of 0 reads back as 1.
pub proof fn law_settings_stored_faithfully(s: AppSettings, row: SettingsRow)
    requires
        row.0 as i64 == stored_values(s)[0],
        row.1 as i64 == stored_values(s)[1],
        row.2 as i64 == stored_values(s)[2],
    ensures
        settings_of_row(row) == (AppSettings {
            max_history_size: if s.max_history_size < 1 {
                1
            } else {
                s.max_history_size
            },
            ..s
        }),
{
}

pub struct SettingsRepository<'a> {
    conn: &'a Connection,
}

impl<'a> SettingsRepository<'a> {
    /// The connection the repository reads and writes.
    pub closed spec fn connection(&self) -> &'a Connection {
        self.conn
    }

    pub fn new(conn: &'a Connection) -> (r: Self)
        ensures
            r.connection() == conn,
    {
        SettingsRepository { conn }
    }

    /// The stored settings.
    pub fn get(&self) -> (r: DbResult<AppSettings>)
        ensures
            r matches Err(e) ==> e is Sqlite,
    {
        match query_settings_row(self.conn, GET_SETTINGS_SQL) {
            Ok(row) => Ok(settings_from_row(row)),
            Err(e) => Err(DbError::Sqlite(e)),
        }
    }

    /// Stores `settings` (a history limit of 0 is stored as 1) and reads them back.
    pub fn update(&self, settings: &AppSettings) -> (r: DbResult<AppSettings>)
        ensures
            r matches Err(e) ==> e is Sqlite,
    {
        match execute(self.conn, UPDATE_SETTINGS_SQL, bind_values(Vec::new(), update_values(settings))) {
            Ok(_) => self.get(),
            Err(e) => Err(DbError::Sqlite(e)),
        }
    }
}

} // verus!
