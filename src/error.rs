//! The ways a collection request can fail.

use vstd::prelude::*;

verus! {

/// Why no request was produced.
#[derive(Debug, Clone, PartialEq, Eq)]
pub enum GaError {
    /// The settings lack the measurement id.
    Config(String),
    /// The event cannot be sent as given.
    Validation(String),
    /// The payload could not be written as a query string.
    Encoding(String),
}

impl GaError {
    pub open spec fn message_view(&self) -> Seq<char> {
        match self {
            GaError::Config(m) => m@,
            GaError::Validation(m) => m@,
            GaError::Encoding(m) => m@,
        }
    }

    /// The text describing the failure.
    pub fn message(&self) -> (r: String)
        ensures
            r@ == self.message_view(),
    {
        match self {
            GaError::Config(m) => m.clone(),
            GaError::Validation(m) => m.clone(),
            GaError::Encoding(m) => m.clone(),
        }
    }
}

} // verus!
