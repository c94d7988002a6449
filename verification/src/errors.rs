//! The management API's error kinds and the status each maps to.

use vstd::prelude::*;

verus! {

/// An error a management-API handler reports.
pub enum AppError {
    /// Something internal failed; details stay in the logs.
    InternalServerError,
    /// The request's signature or credentials were refused.
    Unauthorized(String),
    /// The request itself is malformed.
    BadRequest(String),
}

impl AppError {
    /// The HTTP status this error answers with.
    pub fn status_code(&self) -> (r: u16)
        ensures
            self is InternalServerError <==> r == 500,
            self is Unauthorized <==> r == 401,
            self is BadRequest <==> r == 400,
    {
        match self {
            AppError::InternalServerError => 500,
            AppError::Unauthorized(_) => 401,
            AppError::BadRequest(_) => 400,
        }
    }
}

} // verus!
