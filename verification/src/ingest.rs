//! Classification of deserialization failures, and the small decoders the
//! input schema needs at the ingestion boundary.

use vstd::prelude::*;
use crate::errors::IngestionError;

verus! {

/// How a body that failed to deserialize is classified, from the three
/// flags a JSON reader reports: semantically wrong data is a schema
/// violation, syntactically broken or truncated input is a malformed body,
/// and anything else falls to the catch-all.
pub open spec fn spec_classify_body_failure(is_data: bool, is_syntax: bool, is_eof: bool) -> IngestionError {
    if is_data {
        IngestionError::SchemaViolation
    } else if is_syntax || is_eof {
        IngestionError::MalformedBody
    } else {
        IngestionError::GenericBadRequest
    }
}

/// Classifies a deserialization failure from its reported flags. Produced
/// before the transform runs; it concerns only the deserialization step.
pub fn classify_body_failure(is_data: bool, is_syntax: bool, is_eof: bool) -> (r: IngestionError)
    ensures
        r == spec_classify_body_failure(is_data, is_syntax, is_eof),
{
    if is_data {
        IngestionError::SchemaViolation
    } else if is_syntax || is_eof {
        IngestionError::MalformedBody
    } else {
        IngestionError::GenericBadRequest
    }
}

#[verifier::external_type_specification]
#[verifier::external_body]
pub struct ExSerdeJsonError(serde_json::Error);

/// Relies on `serde_json::Error::is_data`: true when the input was valid
/// JSON whose data is semantically wrong for the target type.
pub assume_specification[ serde_json::Error::is_data ](e: &serde_json::Error) -> bool;

/// Relies on `serde_json::Error::is_syntax`: true when the input was not
/// syntactically valid JSON.
pub assume_specification[ serde_json::Error::is_syntax ](e: &serde_json::Error) -> bool;

/// Relies on `serde_json::Error::is_eof`: true when the input ended
/// prematurely.
pub assume_specification[ serde_json::Error::is_eof ](e: &serde_json::Error) -> bool;

/// Classifies a JSON deserialization failure per the ingestion taxonomy.
/// Whatever the error reports, the result is a body-level classification,
/// never the content-type rejection, which is decided before parsing.
pub fn classify_json_error(e: &serde_json::Error) -> (r: IngestionError)
    ensures
        r != IngestionError::UnsupportedMediaType,
{
    classify_body_failure(e.is_data(), e.is_syntax(), e.is_eof())
}

/// Decodes the wire encoding of a flag that arrives as the number 0 or 1;
/// any other number violates the schema.
pub fn one_zero_bool(value: u8) -> (r: Result<bool, IngestionError>)
    ensures
        value == 0 ==> r == Ok::<bool, IngestionError>(true),
        value == 1 ==> r == Ok::<bool, IngestionError>(false),
        value > 1 ==> r == Err::<bool, IngestionError>(IngestionError::SchemaViolation),
{
    match value {
        0 => Ok(true),
        1 => Ok(false),
        _ => Err(IngestionError::SchemaViolation),
    }
}

} // verus!
