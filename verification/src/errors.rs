//! Error taxonomy of the embedding service layer.
//!
//! The service layer reports failures as one of a few coarse categories; each
//! category maps to a fixed HTTP status code and message.  The mapping is the
//! only logic here and is fully specified.

use vstd::prelude::*;

verus! {

/// A failure category reported to callers of the service layer.
#[derive(Clone, Copy, Debug, PartialEq, Eq, Structural)]
pub enum CustomError {
    /// The request itself was malformed or not acceptable.
    BadRequest,
    /// An internal operation failed; nothing the caller can mend.
    InternalServerError,
    /// Authentication was attempted and rejected.
    InvalidCredentials,
}

impl CustomError {
    /// The HTTP status code this category is reported under.
    pub fn status_code(&self) -> (code: u16)
        ensures
            code == match self {
                CustomError::BadRequest => 400u16,
                CustomError::InternalServerError => 500u16,
                CustomError::InvalidCredentials => 401u16,
            },
    {
        match self {
            CustomError::BadRequest => 400,
            CustomError::InternalServerError => 500,
            CustomError::InvalidCredentials => 401,
        }
    }

    /// The human-readable message this category is reported with.
    pub fn message(&self) -> (msg: &'static str)
        ensures
            msg@ == match self {
                CustomError::BadRequest => "Bad Request"@,
                CustomError::InternalServerError => "Internal Server Error"@,
                CustomError::InvalidCredentials => "Invalid Credentials"@,
            },
    {
        match self {
            CustomError::BadRequest => "Bad Request",
            CustomError::InternalServerError => "Internal Server Error",
            CustomError::InvalidCredentials => "Invalid Credentials",
        }
    }
}

} // verus!
