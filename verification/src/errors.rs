//! The error type that the services and handlers answer with.

use vstd::prelude::*;

verus! {

/// What a request can fail with; each variant carries the message shown to the client.
#[derive(Debug, Clone, PartialEq, Eq)]
pub enum AppError {
    /// The request is malformed or breaks a validation rule (HTTP 400).
    BadRequest(String),
    /// The addressed record does not exist (HTTP 404).
    NotFound(String),
    /// A failure of the server or of a service it depends on (HTTP 500).
    InternalServerError(String),
    /// A failure reported by the database, with its message.
    DatabaseError(String),
}

} // verus!
