//! The client's error type.

use vstd::prelude::*;
use vstd::std_specs::convert::FromSpecImpl;
use crate::http::StatusCode;

verus! {

/// Errors of the Apex client.
#[derive(Debug)]
pub enum ApexError {
    /// Both attempts of a call were used up without an accepted response:
    /// the credential problem is persistent.
    Authentication,
    /// The device answered with a status that is neither success nor a
    /// rejected session.
    Http(StatusCode),
    /// The transport failed.
    Request(reqwless::Error),
    /// A body could not be encoded to or decoded from JSON.
    Json(serde_json::Error),
    /// The driver reported something that the call was not waiting for.
    Unknown,
}

impl From<reqwless::Error> for ApexError {
    fn from(error: reqwless::Error) -> (e: ApexError) {
        ApexError::Request(error)
    }
}

impl FromSpecImpl<reqwless::Error> for ApexError {
    open spec fn obeys_from_spec() -> bool {
        true
    }

    open spec fn from_spec(error: reqwless::Error) -> ApexError {
        ApexError::Request(error)
    }
}

impl From<serde_json::Error> for ApexError {
    fn from(error: serde_json::Error) -> (e: ApexError) {
        ApexError::Json(error)
    }
}

impl FromSpecImpl<serde_json::Error> for ApexError {
    open spec fn obeys_from_spec() -> bool {
        true
    }

    open spec fn from_spec(error: serde_json::Error) -> ApexError {
        ApexError::Json(error)
    }
}

} // verus!
