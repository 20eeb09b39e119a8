//! The daemon's error: an HTTP status and a message.
use vstd::prelude::*;

verus! {

pub const BAD_REQUEST: u16 = 400;
pub const UNAUTHORIZED: u16 = 401;
pub const FORBIDDEN: u16 = 403;
pub const NOT_FOUND: u16 = 404;
pub const CONFLICT: u16 = 409;
pub const INTERNAL_SERVER_ERROR: u16 = 500;
pub const BAD_GATEWAY: u16 = 502;

/// An error answered to the caller with an HTTP status code.
#[derive(Debug)]
pub struct AppError {
    pub status: u16,
    pub message: String,
}

impl AppError {
    /// The error with the given status and message.
    pub fn new(status: u16, message: &str) -> (e: AppError)
        ensures
            e.status == status,
            e.message@ == message@,
    {
        AppError { status, message: message.to_owned() }
    }

    /// An internal server error with the given message.
    pub fn internal(message: String) -> (e: AppError)
        ensures
            e.status == INTERNAL_SERVER_ERROR,
            e.message@ == message@,
    {
        AppError { status: INTERNAL_SERVER_ERROR, message }
    }

    /// Whether this error has the given status and message.
    pub open spec fn is(self, status: u16, message: Seq<char>) -> bool {
        self.status == status && self.message@ == message
    }
}

} // verus!
