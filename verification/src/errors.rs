//! The tagged error channel of the core, and its mapping onto the two-tier
//! client/server taxonomy used at the transport boundary.

use vstd::prelude::*;

verus! {

/// Every failure the core can report.
///
/// The first three are client errors (the request itself was bad); the last
/// two are server errors (an operational fault whose detail is logged but
/// never shown to the caller).
#[derive(Clone, Copy, Debug, PartialEq, Eq, Structural)]
pub enum AppError {
    /// The requested byte range is malformed: start past end, or end past
    /// the recording's declared size.
    InvalidRange,
    /// No catalog record matched the query.
    NoMatch,
    /// The catalog holds fewer records than a quiz needs.
    InsufficientData,
    /// The catalog store failed to answer.
    StorageError,
    /// The backing file could not be read.
    IoError,
}

impl AppError {
    /// Client errors are the user-correctable ones; everything else is an
    /// operational server fault.
    pub open spec fn spec_is_client_error(self) -> bool {
        match self {
            AppError::InvalidRange => true,
            AppError::NoMatch => true,
            AppError::InsufficientData => true,
            AppError::StorageError => false,
            AppError::IoError => false,
        }
    }

    pub fn is_client_error(&self) -> (r: bool)
        ensures
            r == self.spec_is_client_error(),
    {
        match self {
            AppError::InvalidRange => true,
            AppError::NoMatch => true,
            AppError::InsufficientData => true,
            AppError::StorageError => false,
            AppError::IoError => false,
        }
    }

    /// The HTTP status class each tier maps to: 400 for client errors,
    /// 500 for server errors.
    pub fn status_code(&self) -> (r: u16)
        ensures
            r == (if self.spec_is_client_error() {
                400u16
            } else {
                500u16
            }),
    {
        if self.is_client_error() {
            400
        } else {
            500
        }
    }

    /// The human-readable text of each variant.  Server errors carry a
    /// generic message: their detail is never exposed in a response.
    pub open spec fn spec_message(self) -> Seq<char> {
        match self {
            AppError::InvalidRange => "Bad Request: invalid byte range"@,
            AppError::NoMatch => "Bad Request: no entries found"@,
            AppError::InsufficientData => "Bad Request: invalid number of pieces fetched"@,
            AppError::StorageError => "Internal Server Error"@,
            AppError::IoError => "Internal Server Error"@,
        }
    }

    pub fn message(&self) -> (r: &'static str)
        ensures
            r@ == self.spec_message(),
    {
        match self {
            AppError::InvalidRange => "Bad Request: invalid byte range",
            AppError::NoMatch => "Bad Request: no entries found",
            AppError::InsufficientData => "Bad Request: invalid number of pieces fetched",
            AppError::StorageError => "Internal Server Error",
            AppError::IoError => "Internal Server Error",
        }
    }
}

} // verus!
