//! The failure taxonomy of the relay and its mapping to caller-visible
//! HTTP status codes.

use vstd::prelude::*;

verus! {

/// How an inbound body failed at the ingestion boundary, before the
/// transform ever runs. The caller can tell "not JSON" from "wrong shape".
#[derive(Clone, Copy, Debug, PartialEq, Eq, Structural)]
pub enum IngestionError {
    /// The caller declared a missing or wrong content type; the body was
    /// never parsed.
    UnsupportedMediaType,
    /// The body is present but not well-formed in the declared format.
    MalformedBody,
    /// The body is well-formed but violates the input schema (wrong types,
    /// missing required field).
    SchemaViolation,
    /// Any other ingestion fault.
    GenericBadRequest,
}

/// The transform declines an input variant it has no mapping for. This is
/// a recoverable, request-local signal, never a crash.
#[derive(Clone, Copy, Debug, PartialEq, Eq, Structural)]
pub enum TransformError {
    Unmapped,
}

/// The terminal state of one relayed request.
#[derive(Clone, Copy, Debug, PartialEq, Eq, Structural)]
pub enum RelayOutcome {
    /// The destination answered the outbound call; its reply body is
    /// discarded and never relayed to the original caller.
    Forwarded,
    /// The supplied credential did not match the configured one; the body
    /// was never forwarded.
    Unauthorized,
    /// The body was rejected at the ingestion boundary.
    BadRequest(IngestionError),
    /// The transform had no mapping for a parsed, semantically valid input;
    /// only this request fails.
    InternalMappingError,
    /// The outbound call failed in transport (connection refused, timeout,
    /// TLS failure); the caller may retry.
    ForwardingFailed,
}

/// The status code each outcome shows to the inbound caller.
pub open spec fn spec_http_status(outcome: RelayOutcome) -> u16 {
    match outcome {
        RelayOutcome::Forwarded => 204,
        RelayOutcome::Unauthorized => 401,
        RelayOutcome::BadRequest(e) => match e {
            IngestionError::UnsupportedMediaType => 415,
            IngestionError::MalformedBody => 400,
            IngestionError::SchemaViolation => 422,
            IngestionError::GenericBadRequest => 400,
        },
        RelayOutcome::InternalMappingError => 500,
        RelayOutcome::ForwardingFailed => 304,
    }
}

/// Maps an outcome to the caller-visible HTTP status: success is an empty
/// `204 No Content`, a forwarding failure is signalled as "not yet
/// processed", distinct from every ingestion and authentication status.
pub fn http_status(outcome: &RelayOutcome) -> (r: u16)
    ensures
        r == spec_http_status(*outcome),
        (r == 204) <==> (*outcome == RelayOutcome::Forwarded),
{
    match outcome {
        RelayOutcome::Forwarded => 204,
        RelayOutcome::Unauthorized => 401,
        RelayOutcome::BadRequest(e) => match e {
            IngestionError::UnsupportedMediaType => 415,
            IngestionError::MalformedBody => 400,
            IngestionError::SchemaViolation => 422,
            IngestionError::GenericBadRequest => 400,
        },
        RelayOutcome::InternalMappingError => 500,
        RelayOutcome::ForwardingFailed => 304,
    }
}

} // verus!
