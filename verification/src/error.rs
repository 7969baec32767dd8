//! The engine's error type.
//!
//! Every failure a task can report is one of these variants; the payload is
//! the human-readable detail that ends up in the terminal event.

use vstd::prelude::*;

verus! {

/// An error of the engine, tagged by the subsystem that produced it.
#[derive(Clone, Debug)]
pub enum AppError {
    Database(String),
    VectorService(String),
    Io(String),
    Parse(String),
    ApiClient(String),
    Config(String),
    Internal(String),
}

impl AppError {
    /// The full message of this error, prefix included.
    pub open spec fn spec_message(&self) -> Seq<char> {
        match self {
            AppError::Database(s) => "Database error: "@ + s@,
            AppError::VectorService(s) => "Vector Service error: "@ + s@,
            AppError::Io(s) => "I/O error: "@ + s@,
            AppError::Parse(s) => "File parsing error: "@ + s@,
            AppError::ApiClient(s) => "API client error: "@ + s@,
            AppError::Config(s) => "Configuration error: "@ + s@,
            AppError::Internal(s) => "Internal error: "@ + s@,
        }
    }

    /// Render the error as the string a terminal event carries.
    pub fn message(&self) -> (r: String)
        ensures
            r@ == self.spec_message(),
    {
        match self {
            AppError::Database(s) => String::from_str("Database error: ").concat(s.as_str()),
            AppError::VectorService(s) => String::from_str("Vector Service error: ").concat(
                s.as_str(),
            ),
            AppError::Io(s) => String::from_str("I/O error: ").concat(s.as_str()),
            AppError::Parse(s) => String::from_str("File parsing error: ").concat(s.as_str()),
            AppError::ApiClient(s) => String::from_str("API client error: ").concat(s.as_str()),
            AppError::Config(s) => String::from_str("Configuration error: ").concat(s.as_str()),
            AppError::Internal(s) => String::from_str("Internal error: ").concat(s.as_str()),
        }
    }
}

} // verus!
