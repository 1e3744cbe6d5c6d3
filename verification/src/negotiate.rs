//! Content negotiation for the HTTP surface: the wire format of a request is
//! derived from its content-type header by exact byte match, and the matching
//! response reuses the same format.

use crate::errors::{ErrorCode, ErrorRecord};
use crate::text::{bytes_eq, lossy_decoded, utf8_lossy};
use vstd::prelude::*;
use vstd::string::StringExecFns;
use vstd::utf8::encode_utf8;

verus! {

/// The wire format negotiated for one request, reused for its response.
#[derive(Clone, Copy, PartialEq, Eq, Structural, Debug)]
pub enum WireFormat {
    Binary,
    Json,
}

/// The content-type header value that selects the binary format.
pub open spec fn spec_binary_content_type() -> Seq<u8> {
    encode_utf8("application/protobuf"@)
}

/// The content-type header value that selects the JSON format.
pub open spec fn spec_json_content_type() -> Seq<u8> {
    encode_utf8("application/json"@)
}

impl WireFormat {
    /// The content-type header value under which this format travels.
    pub open spec fn spec_content_type(self) -> Seq<u8> {
        match self {
            WireFormat::Binary => spec_binary_content_type(),
            WireFormat::Json => spec_json_content_type(),
        }
    }

    /// The content-type header value under which this format travels.
    pub fn content_type(self) -> (r: Vec<u8>)
        ensures
            r@ == self.spec_content_type(),
    {
        match self {
            WireFormat::Binary => vstd::slice::slice_to_vec("application/protobuf".as_bytes()),
            WireFormat::Json => vstd::slice::slice_to_vec("application/json".as_bytes()),
        }
    }
}

/// The two supported content-type values are distinct byte strings, so at
/// most one format matches a given header.
proof fn lemma_content_types_distinct()
    ensures
        spec_binary_content_type() != spec_json_content_type(),
{
    reveal_strlit("application/protobuf");
    reveal_strlit("application/json");
    assert(vstd::utf8::is_ascii_chars("application/protobuf"@));
    assert(vstd::utf8::is_ascii_chars("application/json"@));
    vstd::utf8::is_ascii_chars_encode_utf8("application/protobuf"@);
    vstd::utf8::is_ascii_chars_encode_utf8("application/json"@);
    assert(spec_binary_content_type().len() == 20);
    assert(spec_json_content_type().len() == 16);
}

/// The message of the rejection of an absent content-type header.
pub open spec fn spec_no_content_type_message() -> Seq<char> {
    "No content-type header"@
}

/// The message of the rejection of an unsupported content-type value: the
/// literal header bytes are embedded verbatim (decoded leniently to text).
pub open spec fn spec_unsupported_content_type_message(value: Seq<u8>) -> Seq<char> {
    "Unsupported content type: "@ + lossy_decoded(value)
}

/// Derives the wire format from the content-type header of a request.
///
/// A missing header and any value other than the two exact supported byte
/// strings are rejected as `Malformed`; there is no media-type parameter
/// parsing and no charset negotiation.
pub fn negotiate(content_type: Option<&Vec<u8>>) -> (r: Result<WireFormat, ErrorRecord>)
    ensures
        r is Ok <==> (content_type matches Some(v) && (v@ == spec_binary_content_type()
            || v@ == spec_json_content_type())),
        content_type matches Some(v) && v@ == spec_binary_content_type() ==> r
            == Ok::<_, ErrorRecord>(WireFormat::Binary),
        content_type matches Some(v) && v@ == spec_json_content_type() ==> r
            == Ok::<_, ErrorRecord>(WireFormat::Json),
        content_type is None ==> (r matches Err(e) && e.code == ErrorCode::Malformed
            && e.message@ == spec_no_content_type_message()),
        content_type matches Some(v) ==> (v@ != spec_binary_content_type() && v@
            != spec_json_content_type() ==> (r matches Err(e) && e.code == ErrorCode::Malformed
            && e.message@ == spec_unsupported_content_type_message(v@))),
{
    match content_type {
        None => Err(ErrorRecord::malformed("No content-type header")),
        Some(value) => {
            proof {
                lemma_content_types_distinct();
            }
            if bytes_eq(value.as_slice(), "application/protobuf".as_bytes()) {
                Ok(WireFormat::Binary)
            } else if bytes_eq(value.as_slice(), "application/json".as_bytes()) {
                Ok(WireFormat::Json)
            } else {
                let mut message = String::from_str("Unsupported content type: ");
                let detail = utf8_lossy(value.as_slice());
                message.append(detail.as_str());
                Err(ErrorRecord::new(ErrorCode::Malformed, message))
            }
        },
    }
}

} // verus!
