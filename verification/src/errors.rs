//! Failure kinds shared by every operation of the crate.

use vstd::prelude::*;

verus! {

/// What went wrong, independent of any wording. Each kind corresponds to
/// exactly one HTTP status code on the service surface.
#[derive(Clone, Copy, Debug, PartialEq, Eq, Structural)]
pub enum ErrorKind {
    /// Validation failed or an illegal transition was requested.
    BadRequest,
    /// The caller is not the owner or guardian the operation requires.
    Unauthorized,
    /// The caller may not act on this record (wrong creator, or a
    /// redemption race was lost).
    Forbidden,
    /// The addressed entity does not exist.
    NotFound,
    /// The invitation has expired.
    Gone,
    /// An optimistic version check failed; the caller may retry.
    Conflict,
    /// A store or transport failure not otherwise classified.
    Internal,
}

/// An operation failure: a kind plus a human-readable message.
#[derive(Debug)]
pub struct Error {
    pub kind: ErrorKind,
    pub message: String,
}

impl Error {
    pub fn new(kind: ErrorKind, message: String) -> (r: Error)
        ensures
            r.kind == kind,
            r.message == message,
    {
        Error { kind, message }
    }
}

/// The HTTP status code that each failure kind maps to.
pub open spec fn spec_status_code(kind: ErrorKind) -> u16 {
    match kind {
        ErrorKind::BadRequest => 400,
        ErrorKind::Unauthorized => 401,
        ErrorKind::Forbidden => 403,
        ErrorKind::NotFound => 404,
        ErrorKind::Gone => 410,
        ErrorKind::Conflict => 409,
        ErrorKind::Internal => 500,
    }
}

/// Maps a failure kind to the HTTP status code the service answers with.
pub fn status_code(kind: ErrorKind) -> (r: u16)
    ensures
        r == spec_status_code(kind),
{
    match kind {
        ErrorKind::BadRequest => 400,
        ErrorKind::Unauthorized => 401,
        ErrorKind::Forbidden => 403,
        ErrorKind::NotFound => 404,
        ErrorKind::Gone => 410,
        ErrorKind::Conflict => 409,
        ErrorKind::Internal => 500,
    }
}

/// Failures of the worker that turns lock events into push notifications.
#[derive(Debug)]
pub enum NotificationError {
    /// The push-token lookup against the store failed.
    TokenLookupFailed(String),
    /// Handing the batch to the push gateway failed.
    SendFailed(String),
}

} // verus!
