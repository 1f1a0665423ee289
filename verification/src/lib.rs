//! Clipboard history: capturing clipboard contents, classifying and
//! normalizing text (with Persian spelling variants folded together), storing
//! entries in a SQLite database with a full-text index, and searching them.
pub mod capture;
pub mod classify;
pub mod db;
pub mod fts;
pub mod image_file;
pub mod models;
pub mod monitor;
pub mod persian;
pub mod security;
pub mod suppress;
pub mod text;
pub mod write;
