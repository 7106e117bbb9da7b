//! The relay engine: one straight-line pipeline per request that
//! authenticates, parses, transforms and serializes, and decides what the
//! unverified edge must do next.
//!
//! The pipeline holds no mutable state: each request's decision is a
//! function of the handler configuration and that request's inputs alone,
//! so any number of requests may run it concurrently.

use vstd::prelude::*;
use vstd::string::StringExecFns;
use core::marker::PhantomData;
use crate::credential::ApiKey;
use crate::errors::{IngestionError, RelayOutcome, TransformError};

verus! {

/// Reads the inbound body into the transform's input type, or classifies
/// the failure. Supplied at wiring time.
#[verifier::reject_recursive_types(In)]
pub struct GenericIncomingDeserializer<In, TD: Fn(Vec<u8>) -> Result<In, IngestionError>> {
    pub f: TD,
    pub __phantom: PhantomData<In>,
}

impl<In, TD: Fn(Vec<u8>) -> Result<In, IngestionError>> GenericIncomingDeserializer<In, TD> {
    pub fn new(f: TD) -> (r: Self)
        ensures
            r.f == f,
    {
        GenericIncomingDeserializer { f, __phantom: PhantomData }
    }
}

/// Writes the transform's output type as the destination's wire format.
/// Supplied at wiring time.
#[verifier::reject_recursive_types(Out)]
pub struct GenericOutgoingSerializer<Out, TS: Fn(Out) -> Vec<u8>> {
    pub f: TS,
    pub __phantom: PhantomData<Out>,
}

impl<Out, TS: Fn(Out) -> Vec<u8>> GenericOutgoingSerializer<Out, TS> {
    pub fn new(f: TS) -> (r: Self)
        ensures
            r.f == f,
    {
        GenericOutgoingSerializer { f, __phantom: PhantomData }
    }
}

/// The relay configuration of the statically wired JSON route: where to
/// forward, which credential to demand, and the pure mapping to apply.
/// Constructed once at process start and read-only thereafter.
#[verifier::reject_recursive_types(In)]
#[verifier::reject_recursive_types(Out)]
pub struct JsonHandler<In, Out, F: Fn(In) -> Result<Out, TransformError>> {
    pub to: String,
    pub expected_credential: ApiKey,
    pub f: F,
    pub __phantom_in: PhantomData<In>,
    pub __phantom_out: PhantomData<Out>,
}

impl<In, Out, F: Fn(In) -> Result<Out, TransformError>> JsonHandler<In, Out, F> {
    pub fn new(to: String, expected_credential: ApiKey, f: F) -> (r: Self)
        ensures
            r.to == to,
            r.expected_credential == expected_credential,
            r.f == f,
    {
        JsonHandler {
            to,
            expected_credential,
            f,
            __phantom_in: PhantomData,
            __phantom_out: PhantomData,
        }
    }
}

/// The full engine configuration: the route plus the two format closures
/// around the transform.
#[verifier::reject_recursive_types(In)]
#[verifier::reject_recursive_types(Out)]
pub struct GenericHandler<
    In,
    Out,
    TD: Fn(Vec<u8>) -> Result<In, IngestionError>,
    F: Fn(In) -> Result<Out, TransformError>,
    TS: Fn(Out) -> Vec<u8>,
> {
    pub incoming_deserializer: GenericIncomingDeserializer<In, TD>,
    pub outgoing_serializer: GenericOutgoingSerializer<Out, TS>,
    pub route: JsonHandler<In, Out, F>,
}

impl<
    In,
    Out,
    TD: Fn(Vec<u8>) -> Result<In, IngestionError>,
    F: Fn(In) -> Result<Out, TransformError>,
    TS: Fn(Out) -> Vec<u8>,
> GenericHandler<In, Out, TD, F, TS> {
    pub fn new(
        route: JsonHandler<In, Out, F>,
        incoming_deserializer: TD,
        outgoing_serializer: TS,
    ) -> (r: Self)
        ensures
            r.route == route,
            r.incoming_deserializer.f == incoming_deserializer,
            r.outgoing_serializer.f == outgoing_serializer,
    {
        GenericHandler {
            incoming_deserializer: GenericIncomingDeserializer::new(incoming_deserializer),
            outgoing_serializer: GenericOutgoingSerializer::new(outgoing_serializer),
            route,
        }
    }
}

/// What the unverified edge must do after the pipeline ran: answer the
/// caller with a terminal outcome, or POST the serialized body to the
/// configured destination and then map the result with
/// `forwarding_outcome`.
pub enum RelayDecision {
    Reject(RelayOutcome),
    Forward(Vec<u8>),
}

/// The one content type the statically wired route accepts.
pub open spec fn spec_is_json_content_type(ct: Option<String>) -> bool {
    ct matches Some(s) && s@ == "application/json"@
}

/// Whether the caller declared the JSON content type.
pub fn is_json_content_type(content_type: &Option<String>) -> (r: bool)
    ensures
        r == spec_is_json_content_type(*content_type),
{
    match content_type {
        None => false,
        Some(s) => {
            let expected = String::from_str("application/json");
            *s == expected
        },
    }
}

/// What the pipeline decides once the body's parse outcome is known: a
/// parse failure is rejected with its classification, an unmapped input
/// fails this request alone, and a mapped one is serialized and forwarded.
pub open spec fn spec_decision_after_parse<
    In,
    Out,
    F: Fn(In) -> Result<Out, TransformError>,
    TS: Fn(Out) -> Vec<u8>,
>(mapper: F, serializer: TS, parsed: Result<In, IngestionError>, r: RelayDecision) -> bool {
    match parsed {
        Err(e) => r == RelayDecision::Reject(RelayOutcome::BadRequest(e)),
        Ok(input) => exists|t: Result<Out, TransformError>|
            #[trigger] call_ensures(mapper, (input,), t) && spec_decision_after_transform(
                serializer,
                t,
                r,
            ),
    }
}

/// What the pipeline decides once the transform's outcome is known.
pub open spec fn spec_decision_after_transform<Out, TS: Fn(Out) -> Vec<u8>>(
    serializer: TS,
    transformed: Result<Out, TransformError>,
    r: RelayDecision,
) -> bool {
    match transformed {
        Err(_) => r == RelayDecision::Reject(RelayOutcome::InternalMappingError),
        Ok(out) => exists|body: Vec<u8>|
            #[trigger] call_ensures(serializer, (out,), body) && r == RelayDecision::Forward(body),
    }
}

/// Runs the per-request pipeline: content type, then credential, then
/// parse, then transform, then serialize. No step is re-entered and no
/// failure crosses the request: a wrong content type is rejected before
/// the body is ever parsed, a wrong credential before the body is ever
/// forwarded, and the transform runs only on a fully parsed value.
pub fn handle<In, Out, TD, F, TS>(
    handler: &GenericHandler<In, Out, TD, F, TS>,
    content_type: &Option<String>,
    supplied_credential: &ApiKey,
    raw_body: Vec<u8>,
) -> (r: RelayDecision) where
    TD: Fn(Vec<u8>) -> Result<In, IngestionError>,
    F: Fn(In) -> Result<Out, TransformError>,
    TS: Fn(Out) -> Vec<u8>,

    requires
        handler.route.expected_credential.wf(),
        supplied_credential.wf(),
        forall|b: Vec<u8>| call_requires(handler.incoming_deserializer.f, (b,)),
        forall|x: In| call_requires(handler.route.f, (x,)),
        forall|y: Out| call_requires(handler.outgoing_serializer.f, (y,)),
    ensures
        !spec_is_json_content_type(*content_type) ==> r == RelayDecision::Reject(
            RelayOutcome::BadRequest(IngestionError::UnsupportedMediaType),
        ),
        spec_is_json_content_type(*content_type) && supplied_credential@
            != handler.route.expected_credential@ ==> r == RelayDecision::Reject(
            RelayOutcome::Unauthorized,
        ),
        spec_is_json_content_type(*content_type) && supplied_credential@
            == handler.route.expected_credential@ ==> exists|
            parsed: Result<In, IngestionError>,
        |
            #[trigger] call_ensures(handler.incoming_deserializer.f, (raw_body,), parsed)
                && spec_decision_after_parse(
                handler.route.f,
                handler.outgoing_serializer.f,
                parsed,
                r,
            ),
{
    if !is_json_content_type(content_type) {
        return RelayDecision::Reject(RelayOutcome::BadRequest(IngestionError::UnsupportedMediaType));
    }
    if !supplied_credential.constant_time_eq(&handler.route.expected_credential) {
        return RelayDecision::Reject(RelayOutcome::Unauthorized);
    }
    match (handler.incoming_deserializer.f)(raw_body) {
        Err(e) => RelayDecision::Reject(RelayOutcome::BadRequest(e)),
        Ok(input) => match (handler.route.f)(input) {
            Err(_) => RelayDecision::Reject(RelayOutcome::InternalMappingError),
            Ok(out) => RelayDecision::Forward((handler.outgoing_serializer.f)(out)),
        },
    }
}

/// Maps the one outbound attempt's result: any response received without a
/// transport error counts as forwarded; a transport failure is reported as
/// "not yet processed" so the caller can retry. Nothing is retried here.
pub fn forwarding_outcome(delivered: bool) -> (r: RelayOutcome)
    ensures
        delivered ==> r == RelayOutcome::Forwarded,
        !delivered ==> r == RelayOutcome::ForwardingFailed,
{
    if delivered {
        RelayOutcome::Forwarded
    } else {
        RelayOutcome::ForwardingFailed
    }
}

} // verus!
