//! The error channel, and the translation of the engine's error signals into
//! readable text.
use vstd::prelude::*;
use crate::text::{trim, trim_of};

verus! {

/// Every way a boundary operation can fail.
#[derive(Debug, Clone, PartialEq, Eq)]
pub enum DbError {
    /// A path or query holds a NUL character and cannot reach the engine.
    InvalidInput(String),
    /// No connection is open.
    NoConnection,
    /// The engine could not open or create the database.
    OpenFailure(String),
    /// The engine ran the query and reported a logic-level failure.
    ExecutionFailure(String),
    /// The engine returned no result cursor at all.
    SystemFailure(String),
    /// The shared connection slot's lock was poisoned.
    LockFailure,
}

pub open spec fn unknown_error_text() -> Seq<char> {
    "An unknown error occurred while validating the database."@
}

pub open spec fn missing_error_text() -> Seq<char> {
    "Database file not found or access denied"@
}

/// The text the engine's last error becomes: a fixed text for a null
/// pointer, another for a blank one, the text itself otherwise.
pub open spec fn translated_error(raw: Option<Seq<char>>) -> Seq<char> {
    match raw {
        None => missing_error_text(),
        Some(t) => if trim_of(t).len() == 0 { unknown_error_text() } else { t },
    }
}

/// Turns the engine's last error (`None` for a null pointer) into text.
pub fn translate_last_error(raw: Option<String>) -> (r: String)
    ensures
        r@ == translated_error(match raw { Some(t) => Some(t@), None => None }),
{
    match raw {
        None => "Database file not found or access denied".to_owned(),
        Some(t) => {
            if trim(t.as_str()).is_empty() {
                "An unknown error occurred while validating the database.".to_owned()
            } else {
                t
            }
        },
    }
}

pub open spec fn no_connection_text() -> Seq<char> {
    "No database is currently open."@
}

pub open spec fn lock_failure_text() -> Seq<char> {
    "Failed to acquire db lock"@
}

impl DbError {
    /// The text the caller is shown.
    pub open spec fn text(&self) -> Seq<char> {
        match self {
            DbError::InvalidInput(t) => t@,
            DbError::NoConnection => no_connection_text(),
            DbError::OpenFailure(t) => t@,
            DbError::ExecutionFailure(t) => t@,
            DbError::SystemFailure(t) => t@,
            DbError::LockFailure => lock_failure_text(),
        }
    }

    /// The text the caller is shown.
    pub fn message(&self) -> (r: String)
        ensures
            r@ == self.text(),
    {
        match self {
            DbError::InvalidInput(t) => t.clone(),
            DbError::NoConnection => "No database is currently open.".to_owned(),
            DbError::OpenFailure(t) => t.clone(),
            DbError::ExecutionFailure(t) => t.clone(),
            DbError::SystemFailure(t) => t.clone(),
            DbError::LockFailure => "Failed to acquire db lock".to_owned(),
        }
    }
}

} // verus!
