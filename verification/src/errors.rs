//! Error values of the services and the text they are shown with.
use vstd::prelude::*;

verus! {

/// The body of an error answer: a short error kind and a message.
pub struct ErrorResponse {
    pub error: String,
    pub message: String,
}

impl ErrorResponse {
    pub fn new(error: &str, message: &str) -> (r: ErrorResponse)
        ensures
            r.error@ == error@,
            r.message@ == message@,
    {
        ErrorResponse { error: String::from_str(error), message: String::from_str(message) }
    }
}


/// Errors of the services' own logic.
pub enum AppError {
    NotFound(String),
    InvalidInput(String),
    Internal(String),
}

impl AppError {
    /// The text an `AppError` is displayed with.
    pub open spec fn text(&self) -> Seq<char> {
        match self {
            AppError::NotFound(s) => "Resource not found: "@ + s@,
            AppError::InvalidInput(s) => "Invalid input: "@ + s@,
            AppError::Internal(s) => "Internal error: "@ + s@,
        }
    }

    /// The text this error is displayed with.
    pub fn message(&self) -> (r: String)
        ensures
            r@ == self.text(),
    {
        match self {
            AppError::NotFound(s) => {
                let mut m = String::from_str("Resource not found: ");
                m.append(s.as_str());
                m
            },
            AppError::InvalidInput(s) => {
                let mut m = String::from_str("Invalid input: ");
                m.append(s.as_str());
                m
            },
            AppError::Internal(s) => {
                let mut m = String::from_str("Internal error: ");
                m.append(s.as_str());
                m
            },
        }
    }
}

} // verus!
