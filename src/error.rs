//! Errors met while converting whole records.
use vstd::prelude::*;

verus! {

/// A timestamp field could not be read or written.
#[derive(Clone, Debug)]
#[non_exhaustive]
pub enum SerdeError {
    DateTimeDe(String),
    DateTimeSer(String),
}

/// Validation details that the API attaches to an error.
#[derive(Clone, Debug)]
pub struct ErrorValidationDetails {
    pub code: String,
    pub message: String,
    pub path: String,
}

/// The data part of an API error.
#[derive(Clone, Debug)]
pub struct ErrorData {
    pub valid: bool,
    pub error: Option<ErrorValidationDetails>,
    pub warn: Option<ErrorValidationDetails>,
}

} // verus!
