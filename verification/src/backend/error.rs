//! The backend's errors.
use vstd::prelude::*;

verus! {

/// Why a backend operation failed.
#[derive(Debug)]
pub enum ServiceError {
    /// The request breaks a rule; the message says which.
    Validation(String),
    /// The request clashes with what exists.
    Conflict(String),
    /// The credentials are wrong.
    Unauthorized,
    /// The server, node or user does not exist (for this user).
    NotFound,
    /// Something failed inside the backend.
    Internal(String),
    /// The node daemon could not be reached or its answer not read.
    NodeRequest(String),
    /// The node daemon answered with an error status.
    NodeDaemon { status: u16, message: String },
    /// The database failed.
    Database(String),
}

} // verus!
