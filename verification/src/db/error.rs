//! Errors of the history store and the messages shown for them.
use vstd::prelude::*;

verus! {

#[derive(Debug)]
pub enum DbError {
    Sqlite(rusqlite::Error),
    Unavailable,
    Poisoned,
    NotFound,
}

pub type DbResult<T> = Result<T, DbError>;

/// The message shown to the user for an error.
pub open spec fn user_message(e: DbError) -> Seq<char> {
    match e {
        DbError::NotFound => "مورد پیدا نشد"@,
        DbError::Unavailable => "ذخیره‌سازی در دسترس نیست"@,
        DbError::Sqlite(_) | DbError::Poisoned => "خطا در پایگاه داده"@,
    }
}

/// The error's description.
pub open spec fn description(e: DbError) -> Seq<char> {
    match e {
        DbError::Sqlite(_) => "database error"@,
        DbError::Unavailable => "storage unavailable"@,
        DbError::Poisoned => "database lock poisoned"@,
        DbError::NotFound => "item not found"@,
    }
}

impl DbError {
    pub fn message(&self) -> (r: String)
        ensures
            r@ == description(*self),
    {
        match self {
            DbError::Sqlite(_) => "database error".to_string(),
            DbError::Unavailable => "storage unavailable".to_string(),
            DbError::Poisoned => "database lock poisoned".to_string(),
            DbError::NotFound => "item not found".to_string(),
        }
    }

    pub fn to_user_message(&self) -> (r: String)
        ensures
            r@ == user_message(*self),
    {
        match self {
            DbError::NotFound => "مورد پیدا نشد".to_string(),
            DbError::Unavailable => "ذخیره‌سازی در دسترس نیست".to_string(),
            DbError::Sqlite(_) | DbError::Poisoned => "خطا در پایگاه داده".to_string(),
        }
    }
}

impl From<rusqlite::Error> for DbError {
    fn from(error: rusqlite::Error) -> (r: Self) {
        DbError::Sqlite(error)
    }
}

impl vstd::std_specs::convert::FromSpecImpl<rusqlite::Error> for DbError {
    open spec fn obeys_from_spec() -> bool {
        true
    }

    open spec fn from_spec(error: rusqlite::Error) -> Self {
        DbError::Sqlite(error)
    }
}

} // verus!
