//! The history store: a SQLite database with a full-text index over the
//! entries' text and normalized text.
pub mod clipboard_repo;
pub mod database;
pub mod error;
pub mod migrate;
pub mod schema;
pub mod settings_repo;
pub mod sql;

pub use clipboard_repo::ClipboardRepository;
pub use database::Database;
pub use error::{DbError, DbResult};
pub use settings_repo::SettingsRepository;
