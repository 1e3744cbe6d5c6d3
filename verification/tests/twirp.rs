//! The HTTP surface end to end: negotiation, decoding, responses.

use prost_reflect::{DescriptorPool, MessageDescriptor};
use twirp_bridge::errors::ErrorCode;
use twirp_bridge::negotiate::WireFormat;
use twirp_bridge::router::{
    decode_request, error_response, miss_response, respond, streaming_unsupported_response,
    RouteKind, TwirpRouter,
};

const FILE_DESCRIPTOR_SET_BYTES: &[u8] = &[
    10, 107, 10, 21, 101, 120, 97, 109, 112, 108, 101, 95, 115, 101, 114, 118, 105, 99, 101, 46,
    112, 114, 111, 116, 111, 18, 7, 112, 97, 99, 107, 97, 103, 101, 34, 11, 10, 9, 77, 121, 77,
    101, 115, 115, 97, 103, 101, 74, 52, 10, 6, 18, 4, 0, 0, 5, 1, 10, 8, 10, 1, 12, 18, 3, 0, 0,
    18, 10, 8, 10, 1, 2, 18, 3, 2, 0, 16, 10, 10, 10, 2, 4, 0, 18, 4, 4, 0, 5, 1, 10, 10, 10, 3,
    4, 0, 1, 18, 3, 4, 8, 17, 98, 6, 112, 114, 111, 116, 111, 51,
];

fn my_message_descriptor() -> MessageDescriptor {
    DescriptorPool::decode(FILE_DESCRIPTOR_SET_BYTES)
        .unwrap()
        .get_message_by_name("package.MyMessage")
        .unwrap()
}

#[test]
fn test_bad_route() {
    let router = TwirpRouter::new().build();
    assert!(router.route_decision("GET", "/").is_none());
    let response = miss_response("/");
    assert_eq!(response.status, 404);
    assert_eq!(
        response.body,
        b"{\"code\":\"bad_route\",\"msg\":\"/ is not a supported Twirp method\"}".to_vec()
    );
}

#[test]
fn test_no_content_type() {
    let router = TwirpRouter::new().route("/package.MyService/MyMethod");
    assert_eq!(
        router.route_decision("POST", "/package.MyService/MyMethod"),
        Some(RouteKind::Unary)
    );
    let error = decode_request(&my_message_descriptor(), None, b"").unwrap_err();
    let response = error_response(&error);
    assert_eq!(response.status, 400);
    assert_eq!(
        response.body,
        b"{\"code\":\"malformed\",\"msg\":\"No content-type header\"}".to_vec()
    );
}

#[test]
fn test_ok_binary() {
    let content_type = b"application/protobuf".to_vec();
    let (format, message) =
        decode_request(&my_message_descriptor(), Some(&content_type), b"").unwrap();
    assert_eq!(format, WireFormat::Binary);
    let response = respond(format, Ok(message));
    assert_eq!(response.status, 200);
    assert_eq!(response.content_type, Some(content_type));
    assert_eq!(response.body, Vec::<u8>::new());
}

#[test]
fn test_bad_binary() {
    let content_type = b"application/protobuf".to_vec();
    let error =
        decode_request(&my_message_descriptor(), Some(&content_type), b"1234").unwrap_err();
    let response = error_response(&error);
    assert_eq!(response.status, 400);
    assert_eq!(
        response.body,
        b"{\"code\":\"malformed\",\"msg\":\"Invalid binary protobuf request: failed to decode Protobuf message: buffer underflow\"}".to_vec()
    );
}

#[test]
fn test_ok_json() {
    let content_type = b"application/json".to_vec();
    let (format, message) =
        decode_request(&my_message_descriptor(), Some(&content_type), b"{}").unwrap();
    assert_eq!(format, WireFormat::Json);
    let response = respond(format, Ok(message));
    assert_eq!(response.status, 200);
    assert_eq!(response.content_type, Some(content_type));
    assert_eq!(response.body, b"{}".to_vec());
}

#[test]
fn test_bad_json() {
    let content_type = b"application/json".to_vec();
    let error = decode_request(&my_message_descriptor(), Some(&content_type), b"foo").unwrap_err();
    let response = error_response(&error);
    assert_eq!(response.status, 400);
    assert_eq!(
        response.body,
        b"{\"code\":\"malformed\",\"msg\":\"Invalid JSON protobuf request: expected ident at line 1 column 2\"}".to_vec()
    );
}

#[test]
fn test_bad_content_type() {
    let content_type = b"foo/bar".to_vec();
    let error = decode_request(&my_message_descriptor(), Some(&content_type), b"").unwrap_err();
    let response = error_response(&error);
    assert_eq!(response.status, 400);
    assert_eq!(
        response.body,
        b"{\"code\":\"malformed\",\"msg\":\"Unsupported content type: foo/bar\"}".to_vec()
    );
}

#[test]
fn test_json_trailing_content_is_malformed() {
    let content_type = b"application/json".to_vec();
    let error =
        decode_request(&my_message_descriptor(), Some(&content_type), b"{} {}").unwrap_err();
    assert_eq!(error.code, ErrorCode::Malformed);
    assert!(error.message.starts_with("Invalid JSON protobuf request: "));
}

#[test]
fn test_streaming_unsupported_route() {
    let router = TwirpRouter::new().route_streaming("/package.MyService/MyStream");
    assert_eq!(
        router.route_decision("POST", "/package.MyService/MyStream"),
        Some(RouteKind::StreamingUnsupported)
    );
    let response = streaming_unsupported_response();
    assert_eq!(response.status, 501);
    assert_eq!(
        response.body,
        b"{\"code\":\"unimplemented\",\"msg\":\"Streaming is not supported by Twirp\"}".to_vec()
    );
}

#[test]
fn test_binary_round_trip() {
    let descriptor = my_message_descriptor();
    let message = prost_reflect::DynamicMessage::new(descriptor.clone());
    let bytes = twirp_bridge::codec::encode(WireFormat::Binary, &message).unwrap();
    let back = twirp_bridge::codec::decode(WireFormat::Binary, &descriptor, &bytes).unwrap();
    assert!(back == message);
}

#[test]
fn test_json_round_trip() {
    let descriptor = my_message_descriptor();
    let message = prost_reflect::DynamicMessage::new(descriptor.clone());
    let bytes = twirp_bridge::codec::encode(WireFormat::Json, &message).unwrap();
    assert_eq!(bytes, b"{}".to_vec());
    let back = twirp_bridge::codec::decode(WireFormat::Json, &descriptor, &bytes).unwrap();
    assert!(back == message);
}

#[test]
fn test_method_other_than_post_misses() {
    let router = TwirpRouter::new().route("/package.MyService/MyMethod");
    assert!(router
        .route_decision("GET", "/package.MyService/MyMethod")
        .is_none());
    assert!(router.route_decision("POST", "/other").is_none());
}
