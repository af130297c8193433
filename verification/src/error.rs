//! The error type of the studies and their storage.
use vstd::prelude::*;

verus! {

/// Errors of the analysis studies, their data sources and their storage.
#[derive(Debug)]
pub enum Error {
    /// A request to a data source failed: the source's name and the reason.
    ApiError(String, String),
    /// A data source answered in an unexpected shape: the source's name and
    /// what was missing.
    InvalidResponseFormat(String, String),
    /// A data source's rate limit was exceeded.
    RateLimitExceeded(String),
    /// The API key of a data source is not configured.
    MissingApiKey(String),
    /// A database request failed.
    DatabaseError(String),
    /// The input of an analysis is unusable.
    ValidationError { message: String },
}

} // verus!
