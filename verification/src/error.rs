//! The error taxonomy of a load call.
//!
//! Every failure is fatal to the single load call and is surfaced to the
//! caller as one of these variants; nothing is retried.

use vstd::prelude::*;
use vstd::string::StringExecFns;
use crate::text::{decimal, spec_decimal};

verus! {

/// Why a load call failed.
#[derive(Debug, Clone, PartialEq, Eq)]
pub enum LoadError {
    /// The remote source answered with a non-success HTTP status.
    HttpStatus(u16),
    /// The connection failed or timed out before or during the transfer.
    Network(String),
    /// A directory, file, write, flush or rename operation failed.
    Filesystem(String),
    /// The canonical URL of the model was not accepted by the URL parser.
    InvalidUrl,
    /// The obtained bytes are not a valid model encoding; surfaced at
    /// session-construction time by the inference engine, never by the
    /// in-library bind.
    InvalidModel(String),
    /// A requested execution provider could not be initialized; surfaced
    /// at session-construction time by the inference engine, never by the
    /// in-library bind.
    ProviderUnavailable(String),
}

/// The fixed description of each error variant; a status code is rendered
/// in decimal after the description.
pub open spec fn spec_message(e: LoadError) -> Seq<char> {
    match e {
        LoadError::HttpStatus(status) => "request failed with status: "@ + spec_decimal(
            status as nat,
        ),
        LoadError::Network(detail) => "network failure: "@ + detail@,
        LoadError::Filesystem(detail) => "filesystem failure: "@ + detail@,
        LoadError::InvalidUrl => "invalid model source URL"@,
        LoadError::InvalidModel(detail) => "invalid model encoding: "@ + detail@,
        LoadError::ProviderUnavailable(detail) => "execution provider unavailable: "@ + detail@,
    }
}

impl LoadError {
    /// A human-readable description of the failure.
    pub fn message(&self) -> (r: String)
        ensures
            r@ == spec_message(*self),
    {
        match self {
            LoadError::HttpStatus(status) => {
                let mut r = "request failed with status: ".to_owned();
                let digits = decimal(*status as u64);
                r.append(digits.as_str());
                r
            },
            LoadError::Network(detail) => {
                let mut r = "network failure: ".to_owned();
                r.append(detail.as_str());
                r
            },
            LoadError::Filesystem(detail) => {
                let mut r = "filesystem failure: ".to_owned();
                r.append(detail.as_str());
                r
            },
            LoadError::InvalidUrl => "invalid model source URL".to_owned(),
            LoadError::InvalidModel(detail) => {
                let mut r = "invalid model encoding: ".to_owned();
                r.append(detail.as_str());
                r
            },
            LoadError::ProviderUnavailable(detail) => {
                let mut r = "execution provider unavailable: ".to_owned();
                r.append(detail.as_str());
                r
            },
        }
    }
}

} // verus!
