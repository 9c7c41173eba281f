//! Errors reported by the library.

use vstd::prelude::*;

verus! {

/// A recoverable failure, with a message for diagnostics.
#[derive(Debug, PartialEq, Eq)]
pub enum PolarsError {
    /// A lookup by name found nothing; the message lists the names that
    /// would have been valid.
    NotFound(String),
    /// The operation is invalid for the values or types at hand.
    ComputeError(String),
    /// A column does not have the data type that was asked for.
    SchemaMisMatch(String),
}

impl Clone for PolarsError {
    fn clone(&self) -> (r: Self)
        ensures
            r == *self,
    {
        match self {
            PolarsError::NotFound(m) => PolarsError::NotFound(m.clone()),
            PolarsError::ComputeError(m) => PolarsError::ComputeError(m.clone()),
            PolarsError::SchemaMisMatch(m) => PolarsError::SchemaMisMatch(m.clone()),
        }
    }
}

impl PolarsError {
    /// The message carried by the error.
    pub open spec fn message(self) -> Seq<char> {
        match self {
            PolarsError::NotFound(m) => m@,
            PolarsError::ComputeError(m) => m@,
            PolarsError::SchemaMisMatch(m) => m@,
        }
    }
}

/// A failure at the boundary to a host language.
#[derive(Debug, PartialEq, Eq)]
pub enum HostError {
    /// The host handed over something that the library cannot use.
    Other(String),
}

/// Result of an operation that can fail with a [`PolarsError`].
pub type Result<T> = std::result::Result<T, PolarsError>;

} // verus!
