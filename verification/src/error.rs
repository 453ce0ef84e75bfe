//! Errors: diesel's error types, and how a runtime that could not run a task is
//! reported in them.
use vstd::prelude::*;

verus! {

/// `diesel::result::Error`, the error of a query. Opaque: it is carried through.
#[verifier::external_type_specification]
#[verifier::external_body]
pub struct ExError(diesel::result::Error);

/// `diesel::ConnectionError`, the error of establishing a connection. Opaque:
/// it is carried through.
#[verifier::external_type_specification]
#[verifier::external_body]
pub struct ExConnectionError(diesel::ConnectionError);

/// The kinds of database error that the wrapper itself reports, under their names
/// in `diesel::result::DatabaseErrorKind`.
pub enum DatabaseErrorKind {
    /// The query could not be sent to the database.
    UnableToSendCommand,
}

/// The value that `diesel::result::Error::DatabaseError` makes of the kind and of
/// a message without further details.
pub uninterp spec fn database_error_of(
    kind: DatabaseErrorKind,
    message: Seq<char>,
) -> diesel::result::Error;

/// Calls `diesel::result::Error::DatabaseError`, an enum's constructor, with
/// diesel's kind of the same name and with the message in a box. The contract
/// claims that the result depends on the kind and on the message alone.
#[verifier::external_body]
fn database_error(kind: DatabaseErrorKind, message: String) -> (error: diesel::result::Error)
    ensures
        error == database_error_of(kind, message@),
{
    let kind = match kind {
        DatabaseErrorKind::UnableToSendCommand => {
            diesel::result::DatabaseErrorKind::UnableToSendCommand
        },
    };
    let information = Box::new(message);
    diesel::result::Error::DatabaseError(kind, information)
}

/// The value that `diesel::ConnectionError::BadConnection` makes of a message.
pub uninterp spec fn bad_connection_of(message: Seq<char>) -> diesel::ConnectionError;

/// Calls `diesel::ConnectionError::BadConnection`, an enum's constructor. The
/// contract claims that the result depends on the message alone.
#[verifier::external_body]
pub(crate) fn bad_connection(message: String) -> (error: diesel::ConnectionError)
    ensures
        error == bad_connection_of(message@),
{
    diesel::ConnectionError::BadConnection(message)
}

/// Why a runtime did not return the result of a task, in words.
pub struct SpawnError {
    pub message: String,
}

/// The error that a query ends in when its task gave no result: the command could
/// not be sent, with the runtime's own words.
pub open spec fn spawn_blocking_error(failure: SpawnError) -> diesel::result::Error {
    database_error_of(DatabaseErrorKind::UnableToSendCommand, failure.message@)
}

/// Turns the failure of a runtime into the error of a query.
pub fn from_spawn_blocking_error(failure: SpawnError) -> (error: diesel::result::Error)
    ensures
        error == spawn_blocking_error(failure),
{
    database_error(DatabaseErrorKind::UnableToSendCommand, failure.message)
}

} // verus!
