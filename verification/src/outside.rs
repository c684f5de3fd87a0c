//! Types of other crates that the client carries through unread.

use vstd::prelude::*;

verus! {

/// `reqwless::Error`, the transport's error, carried through unread.
#[verifier::external_type_specification]
#[verifier::external_body]
pub struct ExTransportError(reqwless::Error);

/// `serde_json::Error`, the JSON codec's error, carried through unread.
#[verifier::external_type_specification]
#[verifier::external_body]
pub struct ExJsonError(serde_json::Error);

} // verus!
