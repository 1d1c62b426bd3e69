//! The error that API operations answer a refused request with.
use vstd::prelude::*;

verus! {

/// An API error: an HTTP status class with its message.
#[derive(Debug, PartialEq, Eq)]
pub enum ApiError {
    /// 400: the request is malformed or not allowed in the current state.
    BadRequest(String),
    /// 400: one field of the request failed validation.
    Validation { field: String, message: String },
    /// 403: the caller may not do this.
    Forbidden(String),
    /// 404: the resource does not exist.
    NotFound(String),
    /// 409: the request conflicts with the current state.
    Conflict(String),
    /// 500: the server could not complete the request.
    Internal(String),
}

impl ApiError {
    /// The HTTP status code of the error.
    pub open spec fn spec_status(&self) -> u16 {
        match self {
            ApiError::BadRequest(_) => 400,
            ApiError::Validation { .. } => 400,
            ApiError::Forbidden(_) => 403,
            ApiError::NotFound(_) => 404,
            ApiError::Conflict(_) => 409,
            ApiError::Internal(_) => 500,
        }
    }

    /// The HTTP status code of the error.
    pub fn status(&self) -> (r: u16)
        ensures
            r == self.spec_status(),
    {
        match self {
            ApiError::BadRequest(_) => 400,
            ApiError::Validation { .. } => 400,
            ApiError::Forbidden(_) => 403,
            ApiError::NotFound(_) => 404,
            ApiError::Conflict(_) => 409,
            ApiError::Internal(_) => 500,
        }
    }

    /// The error's message.
    pub open spec fn spec_message(&self) -> Seq<char> {
        match self {
            ApiError::BadRequest(m) => m@,
            ApiError::Validation { message, .. } => message@,
            ApiError::Forbidden(m) => m@,
            ApiError::NotFound(m) => m@,
            ApiError::Conflict(m) => m@,
            ApiError::Internal(m) => m@,
        }
    }

    /// The error's message.
    pub fn message(&self) -> (r: String)
        ensures
            r@ == self.spec_message(),
    {
        match self {
            ApiError::BadRequest(m) => m.clone(),
            ApiError::Validation { message, .. } => message.clone(),
            ApiError::Forbidden(m) => m.clone(),
            ApiError::NotFound(m) => m.clone(),
            ApiError::Conflict(m) => m.clone(),
            ApiError::Internal(m) => m.clone(),
        }
    }
}

} // verus!
