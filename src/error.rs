//! The errors that the API reports to its callers.
use vstd::prelude::*;

verus! {

/// An error of the API, with the message shown to the caller.
#[derive(Debug)]
pub enum ApiError {
    /// The addressed record does not exist.
    NotFound(String),
    /// A value in the request is not acceptable.
    Validation(String),
    /// The request conflicts with the current state.
    Conflict(String),
    /// The request cannot be carried out as given.
    BadRequest(String),
    /// A service the request needs is not available.
    ServiceUnavailable(String),
}

impl ApiError {
    /// The message carried by the error.
    pub open spec fn message_view(&self) -> Seq<char> {
        match self {
            ApiError::NotFound(m) => m@,
            ApiError::Validation(m) => m@,
            ApiError::Conflict(m) => m@,
            ApiError::BadRequest(m) => m@,
            ApiError::ServiceUnavailable(m) => m@,
        }
    }

    /// The HTTP status code that reports the error.
    pub fn status_code(&self) -> (r: u16)
        ensures
            r == match self {
                ApiError::NotFound(_) => 404u16,
                ApiError::Validation(_) => 422u16,
                ApiError::Conflict(_) => 409u16,
                ApiError::BadRequest(_) => 400u16,
                ApiError::ServiceUnavailable(_) => 503u16,
            },
    {
        match self {
            ApiError::NotFound(_) => 404,
            ApiError::Validation(_) => 422,
            ApiError::Conflict(_) => 409,
            ApiError::BadRequest(_) => 400,
            ApiError::ServiceUnavailable(_) => 503,
        }
    }

    /// The message carried by the error.
    pub fn message(&self) -> (r: &str)
        ensures
            r@ == self.message_view(),
    {
        match self {
            ApiError::NotFound(m) => m.as_str(),
            ApiError::Validation(m) => m.as_str(),
            ApiError::Conflict(m) => m.as_str(),
            ApiError::BadRequest(m) => m.as_str(),
            ApiError::ServiceUnavailable(m) => m.as_str(),
        }
    }
}

} // verus!
