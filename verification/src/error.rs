//! The failures that a request can end in.

use vstd::prelude::*;
use crate::text::owned;

verus! {

/// The kinds of failure, each with the HTTP status that reports it.
#[derive(Clone, Copy, Debug, PartialEq, Eq, Structural, Hash)]
pub enum ErrorKind {
    /// The bearer token is missing, invalid or of the wrong type.
    Unauthorized,
    /// The caller is known but may not do this.
    Forbidden,
    /// The record asked for does not exist, or the caller may not see it.
    NotFound,
    /// The request breaks a rule of the domain.
    InvalidState,
    /// The request collides with what is already recorded.
    Conflict,
    /// The database or another service failed.
    Internal,
    /// The service cannot take requests now.
    Unavailable,
}

impl ErrorKind {
    /// The HTTP status code of a failure of this kind.
    pub open spec fn spec_status(self) -> u16 {
        match self {
            ErrorKind::Unauthorized => 401,
            ErrorKind::Forbidden => 403,
            ErrorKind::NotFound => 404,
            ErrorKind::InvalidState => 400,
            ErrorKind::Conflict => 409,
            ErrorKind::Internal => 500,
            ErrorKind::Unavailable => 503,
        }
    }

    /// The HTTP status code of a failure of this kind.
    pub fn status(&self) -> (code: u16)
        ensures
            code == self.spec_status(),
    {
        match self {
            ErrorKind::Unauthorized => 401,
            ErrorKind::Forbidden => 403,
            ErrorKind::NotFound => 404,
            ErrorKind::InvalidState => 400,
            ErrorKind::Conflict => 409,
            ErrorKind::Internal => 500,
            ErrorKind::Unavailable => 503,
        }
    }
}

/// A failed request: its kind and the message for the client.
#[derive(Clone, Debug, PartialEq, Eq)]
pub struct ApiError {
    pub kind: ErrorKind,
    pub message: String,
}

/// A query or a statement that the database did not carry out.
#[derive(Clone, Copy, Debug, PartialEq, Eq, Structural)]
pub struct DbError {}

/// True when `r` is the failure of the given kind with the given message.
pub open spec fn is_failure<T>(r: Result<T, ApiError>, kind: ErrorKind, message: Seq<char>) -> bool {
    match r {
        Ok(_) => false,
        Err(e) => e.kind == kind && e.message@ == message,
    }
}

impl ApiError {
    /// The failure of the given kind with the given message.
    pub fn new(kind: ErrorKind, message: &str) -> (e: ApiError)
        ensures
            e.kind == kind,
            e.message@ == message@,
    {
        ApiError { kind, message: owned(message) }
    }
}

/// The failed outcome of the given kind with the given message.
pub fn fail<T>(kind: ErrorKind, message: &str) -> (r: Result<T, ApiError>)
    ensures
        is_failure(r, kind, message@),
{
    Err(ApiError::new(kind, message))
}

/// The record that was read; the failure of the given kind with the given
/// message where it is missing; the fixed internal failure where it could
/// not be read.
pub fn found_or<T>(fetched: Result<Option<T>, DbError>, kind: ErrorKind, message: &str) -> (r: Result<T, ApiError>)
    ensures
        match fetched {
            Ok(Some(row)) => r == Ok::<T, ApiError>(row),
            Ok(None) => is_failure(r, kind, message@),
            Err(_) => is_failure(r, ErrorKind::Internal, database_error_message()),
        },
{
    match fetched {
        Ok(Some(row)) => Ok(row),
        Ok(None) => fail(kind, message),
        Err(_) => database_failure(),
    }
}

/// Success where the statement was carried out, or the internal failure with
/// the given message where it was not.
pub fn written_or<T>(written: Result<T, DbError>, message: &str) -> (r: Result<T, ApiError>)
    ensures
        match written {
            Ok(done) => r == Ok::<T, ApiError>(done),
            Err(_) => is_failure(r, ErrorKind::Internal, message@),
        },
{
    match written {
        Ok(done) => Ok(done),
        Err(_) => fail(ErrorKind::Internal, message),
    }
}

/// What was read, or the fixed internal failure where the database failed.
pub fn read_or_fail<T>(fetched: Result<T, DbError>) -> (r: Result<T, ApiError>)
    ensures
        match fetched {
            Ok(rows) => r == Ok::<T, ApiError>(rows),
            Err(_) => is_failure(r, ErrorKind::Internal, database_error_message()),
        },
{
    match fetched {
        Ok(rows) => Ok(rows),
        Err(_) => database_failure(),
    }
}

/// The message of the fixed failure that hides a database error from the client.
pub open spec fn database_error_message() -> Seq<char> {
    "Database error"@
}

/// The failure that reports any database error, whatever its cause.
pub fn database_failure<T>() -> (r: Result<T, ApiError>)
    ensures
        is_failure(r, ErrorKind::Internal, database_error_message()),
{
    fail(ErrorKind::Internal, "Database error")
}

} // verus!
