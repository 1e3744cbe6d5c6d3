//! Bidirectional conversion between wire bytes and schema-described dynamic
//! messages, for both wire formats.
//!
//! The raw encode and decode primitives belong to the schema/reflection
//! library and are reached through trusted wrappers; what this module proves
//! is the error classification around them: decode failures are the client's
//! fault (`Malformed`, with the failure description embedded), while failures
//! past the wire — converting an intermediate value into a concrete typed
//! message, or encoding an already-typed response — are the server's fault
//! (`Internal`).

use crate::errors::{ErrorCode, ErrorRecord};
use crate::negotiate::WireFormat;
use crate::text::has_prefix;
use prost_reflect::prost::Message;
use serde::Serialize;
use vstd::prelude::*;
use vstd::string::StringExecFns;

verus! {

#[verifier::external_type_specification]
#[verifier::external_body]
pub struct ExDynamicMessage(prost_reflect::DynamicMessage);

#[verifier::external_type_specification]
#[verifier::external_body]
pub struct ExMessageDescriptor(prost_reflect::MessageDescriptor);

/// Relies on `prost_reflect::DynamicMessage::decode`: a schema-typed parse
/// of raw binary protobuf bytes. The empty byte string encodes the message
/// with every field unset, so decoding it succeeds and yields the schema's
/// default value.
#[verifier::external_body]
fn raw_decode_binary(descriptor: &prost_reflect::MessageDescriptor, bytes: &[u8]) -> (r: Result<
    prost_reflect::DynamicMessage,
    String,
>)
    ensures
        bytes@.len() == 0 ==> r is Ok,
{
    match prost_reflect::DynamicMessage::decode(descriptor.clone(), bytes) {
        Ok(message) => Ok(message),
        Err(e) => Err(format!("{e}")),
    }
}

/// Relies on `serde_json::Deserializer::from_slice`, on the schema-driven
/// `prost_reflect::DynamicMessage::deserialize`, and on
/// `serde_json::Deserializer::end`, which rejects any trailing content after
/// the top-level JSON value.
#[verifier::external_body]
fn raw_decode_json(descriptor: &prost_reflect::MessageDescriptor, bytes: &[u8]) -> (r: Result<
    prost_reflect::DynamicMessage,
    String,
>) {
    let mut deserializer = serde_json::Deserializer::from_slice(bytes);
    let message =
        match prost_reflect::DynamicMessage::deserialize(descriptor.clone(), &mut deserializer) {
            Ok(message) => message,
            Err(e) => return Err(format!("{e}")),
        };
    match deserializer.end() {
        Ok(()) => Ok(message),
        Err(e) => Err(format!("{e}")),
    }
}

/// Relies on `prost::Message::encode` for dynamic messages: it fails only
/// when the output buffer lacks capacity, and the growable buffer handed to
/// it never does, so encoding succeeds.
#[verifier::external_body]
fn raw_encode_binary(message: &prost_reflect::DynamicMessage) -> (r: Result<Vec<u8>, String>)
    ensures
        r is Ok,
{
    let mut buffer = prost_reflect::bytes::BytesMut::with_capacity(message.encoded_len());
    match message.encode(&mut buffer) {
        Ok(()) => Ok(buffer.to_vec()),
        Err(e) => Err(format!("{e}")),
    }
}

/// Relies on `serde_json::Serializer` and on the schema-driven `Serialize`
/// of `prost_reflect::DynamicMessage`: renders the message as JSON text over
/// its descriptor.
#[verifier::external_body]
fn raw_encode_json(message: &prost_reflect::DynamicMessage) -> (r: Result<Vec<u8>, String>) {
    let mut serializer = serde_json::Serializer::new(Vec::new());
    match message.serialize(&mut serializer) {
        Ok(()) => Ok(serializer.into_inner()),
        Err(e) => Err(format!("{e}")),
    }
}

/// The prefix under which a decode failure of each wire format is reported
/// to the client; the rest of the message is the failure description.
pub open spec fn spec_decode_failure_prefix(format: WireFormat) -> Seq<char> {
    match format {
        WireFormat::Binary => "Invalid binary protobuf request: "@,
        WireFormat::Json => "Invalid JSON protobuf request: "@,
    }
}

/// Classifies a decode failure as the client's fault: `Malformed`, with the
/// failure description embedded after the format's fixed prefix, and the
/// description kept as the diagnostic cause.
pub fn malformed_decode_error(format: WireFormat, cause: String) -> (r: ErrorRecord)
    ensures
        r.code == ErrorCode::Malformed,
        r.message@ == spec_decode_failure_prefix(format) + cause@,
        r.cause is Some,
{
    let mut message = match format {
        WireFormat::Binary => String::from_str("Invalid binary protobuf request: "),
        WireFormat::Json => String::from_str("Invalid JSON protobuf request: "),
    };
    message.append(cause.as_str());
    ErrorRecord::wrap(ErrorCode::Malformed, message, cause)
}

/// Decodes wire bytes of the given format into a dynamic message of the
/// descriptor's type. An empty binary body yields the schema's default
/// value; any parse failure is the client's fault.
pub fn decode(
    format: WireFormat,
    descriptor: &prost_reflect::MessageDescriptor,
    bytes: &[u8],
) -> (r: Result<prost_reflect::DynamicMessage, ErrorRecord>)
    ensures
        format == WireFormat::Binary && bytes@.len() == 0 ==> r is Ok,
        r matches Err(e) ==> e.code == ErrorCode::Malformed && has_prefix(
            e.message@,
            spec_decode_failure_prefix(format),
        ),
{
    let step = match format {
        WireFormat::Binary => raw_decode_binary(descriptor, bytes),
        WireFormat::Json => raw_decode_json(descriptor, bytes),
    };
    match step {
        Ok(message) => Ok(message),
        Err(cause) => {
            let e = malformed_decode_error(format, cause);
            proof {
                assert(e.message@.subrange(
                    0,
                    spec_decode_failure_prefix(format).len() as int,
                ) =~= spec_decode_failure_prefix(format));
            }
            Err(e)
        },
    }
}

/// Step two of JSON decoding: converting the schema-described intermediate
/// value into the caller's concrete message type. A failure here means the
/// descriptor and the compiled type have drifted, so unlike a parse failure
/// it is the server's fault: it is classified `Internal` with a fixed
/// message, and the description is kept only as the diagnostic cause.
pub fn classify_transcode<T>(step: Result<T, String>) -> (r: Result<T, ErrorRecord>)
    ensures
        r is Ok <==> step is Ok,
        step matches Ok(v) ==> r == Ok::<T, ErrorRecord>(v),
        step is Err ==> (r matches Err(e) && e.code == ErrorCode::Internal && e.message@
            == "Internal error while parsing the JSON request"@ && e.cause is Some),
{
    match step {
        Ok(value) => Ok(value),
        Err(cause) => Err(
            ErrorRecord::wrap(
                ErrorCode::Internal,
                String::from_str("Internal error while parsing the JSON request"),
                cause,
            ),
        ),
    }
}

/// Encodes a dynamic message into wire bytes of the given format. Binary
/// encoding of a well-typed message always succeeds; a failure on either
/// path is the bridge's own defect and is classified `Internal`.
pub fn encode(format: WireFormat, message: &prost_reflect::DynamicMessage) -> (r: Result<
    Vec<u8>,
    ErrorRecord,
>)
    ensures
        format == WireFormat::Binary ==> r is Ok,
        r matches Err(e) ==> e.code == ErrorCode::Internal && e.message@
            == "Failed to build the response"@,
{
    match format {
        WireFormat::Binary => match raw_encode_binary(message) {
            Ok(bytes) => Ok(bytes),
            Err(cause) => Err(
                // Unreachable: binary encoding of a well-typed message
                // cannot fail. Kept so that a failure would still be
                // downgraded rather than abort request processing.
                ErrorRecord::wrap(
                    ErrorCode::Internal,
                    String::from_str("Failed to serialize to protobuf"),
                    cause,
                ),
            ),
        },
        WireFormat::Json => match raw_encode_json(message) {
            Ok(bytes) => Ok(bytes),
            Err(cause) => Err(
                ErrorRecord::wrap(
                    ErrorCode::Internal,
                    String::from_str("Failed to build the response"),
                    cause,
                ),
            ),
        },
    }
}

} // verus!
