//! A single-route webhook relay: an authenticated callback is received,
//! reshaped by a pure transform, and forwarded over one outbound call.
//!
//! The verified core is the credential (API key) subsystem, the error
//! taxonomy for the ingestion and forwarding boundaries, and the relay
//! pipeline that authenticates, parses, transforms and serializes a
//! request. The HTTP server and the outbound call itself are unverified
//! plumbing around this library.

pub mod credential;
pub mod datetime;
pub mod errors;
pub mod ingest;
pub mod todoist;
pub mod discord;
pub mod transform;
pub mod registry;
pub mod relay;
