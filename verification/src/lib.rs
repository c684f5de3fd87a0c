//! Session-authenticated client core for a Neptune Apex aquarium controller.
//!
//! The crate holds every decision the client makes and performs no I/O
//! itself. `client::Apex` keeps the configuration and the session credential
//! and forms the requests. `Apex::status`, `Apex::feed` and `Apex::request`
//! start a call, an `exchange::Exchange`, which hands its driver one `Step`
//! at a time: a request to send, a body to read, or the call's end. The
//! driver does what the step says and reports an `Event`;
//! `Exchange::advance` answers with the next step. `proofs` holds what is
//! proved of every call.

pub mod client;
pub mod error;
pub mod exchange;
pub mod feed;
pub mod http;
pub mod outside;
pub mod proofs;
pub mod status;
pub mod text;
