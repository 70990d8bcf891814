//! Error classification for the control interface.
//!
//! The transport layer lives outside this crate; it only needs each
//! failure sorted into a response class with its message.

use vstd::prelude::*;
use vstd::string::StringExecFns;

verus! {

/// A classified failure, carrying the message to report.
#[derive(Debug)]
pub enum ApiError {
    InternalError(String),
    NotFound(String),
    BadRequest(String),
    Unauthorized(String),
}

impl ApiError {
    /// The message carried by the error.
    pub fn message(&self) -> (m: &String)
        ensures
            match self {
                ApiError::InternalError(s) => m@ == s@,
                ApiError::NotFound(s) => m@ == s@,
                ApiError::BadRequest(s) => m@ == s@,
                ApiError::Unauthorized(s) => m@ == s@,
            },
    {
        match self {
            ApiError::InternalError(s) => s,
            ApiError::NotFound(s) => s,
            ApiError::BadRequest(s) => s,
            ApiError::Unauthorized(s) => s,
        }
    }
}

/// Classifies a storage failure as an internal error, keeping its
/// description.
pub fn map_db_error(err: &str) -> (r: ApiError)
    ensures
        r matches ApiError::InternalError(m) && m@ == "Database error: "@ + err@,
{
    let mut msg = String::from_str("Database error: ");
    msg.append(err);
    ApiError::InternalError(msg)
}

} // verus!
