//! The errors of the store's operations.

use vstd::prelude::*;

verus! {

/// The error type of the SQLite driver, carried through unread.
#[verifier::external_type_specification]
#[verifier::external_body]
pub struct ExSqlxError(sqlx::Error);

/// Why an operation of the store failed.
#[derive(Debug)]
pub enum CoreError {
    /// The database reported an error.
    Database(sqlx::Error),
    /// A row that the operation needs does not exist.
    NotFound(String),
    /// The input breaks a rule of the store.
    Validation(String),
}

/// `r` failed with a validation error whose message is `msg`.
pub open spec fn is_validation_error<T>(r: Result<T, CoreError>, msg: Seq<char>) -> bool {
    r matches Err(CoreError::Validation(m)) && m@ == msg
}

/// `r` failed because a row is missing; the message is `msg`.
pub open spec fn is_not_found_error<T>(r: Result<T, CoreError>, msg: Seq<char>) -> bool {
    r matches Err(CoreError::NotFound(m)) && m@ == msg
}

} // verus!
