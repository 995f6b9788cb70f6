//! The error that a request handler answers with: an HTTP status and a text.

use vstd::prelude::*;

verus! {

pub const STATUS_BAD_REQUEST: u16 = 400;
pub const STATUS_UNAUTHORIZED: u16 = 401;
pub const STATUS_FORBIDDEN: u16 = 403;
pub const STATUS_NOT_FOUND: u16 = 404;
pub const STATUS_CONFLICT: u16 = 409;
pub const STATUS_INTERNAL: u16 = 500;

/// A failed request: the HTTP status code and the text sent as the body's
/// `error` field.
#[derive(Clone, Debug)]
pub struct AppError {
    pub status: u16,
    pub message: String,
}

impl AppError {
    pub fn new(status: u16, message: String) -> (e: AppError)
        ensures
            e.status == status,
            e.message == message,
    {
        AppError { status, message }
    }

    /// An error with a fixed text.
    pub fn with_text(status: u16, text: &str) -> (e: AppError)
        ensures
            e.status == status,
            e.message@ == text@,
    {
        AppError { status, message: text.to_owned() }
    }

    /// An internal error (status 500) carrying the text of a failure below.
    pub fn internal(message: String) -> (e: AppError)
        ensures
            e.status == STATUS_INTERNAL,
            e.message == message,
    {
        AppError { status: STATUS_INTERNAL, message }
    }
}

/// `r` is the outcome `o` of a computation whose failures are internal
/// errors: the same value, or status 500 with the failure's text.
pub open spec fn is_outcome<T>(r: Result<T, AppError>, o: Result<T, Seq<char>>) -> bool {
    match (r, o) {
        (Ok(v), Ok(w)) => v == w,
        (Err(e), Err(m)) => e.status == STATUS_INTERNAL && e.message@ == m,
        _ => false,
    }
}

} // verus!
