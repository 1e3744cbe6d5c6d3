//! The streaming surface: outcome adaptation, stream envelopes, request
//! parts.

use prost_reflect::{DescriptorPool, DynamicMessage, MessageDescriptor};
use twirp_bridge::errors::{ErrorCode, ErrorRecord};
use twirp_bridge::grpc::{
    adapt_envelope, adapt_inbound_item, grpc_request_parts, unary_outcome, EnvelopeItem,
    GrpcRouter, GrpcStatus, MethodShape, StreamingEnvelope,
};

const FILE_DESCRIPTOR_SET_BYTES: &[u8] = &[
    10, 107, 10, 21, 101, 120, 97, 109, 112, 108, 101, 95, 115, 101, 114, 118, 105, 99, 101, 46,
    112, 114, 111, 116, 111, 18, 7, 112, 97, 99, 107, 97, 103, 101, 34, 11, 10, 9, 77, 121, 77,
    101, 115, 115, 97, 103, 101, 74, 52, 10, 6, 18, 4, 0, 0, 5, 1, 10, 8, 10, 1, 12, 18, 3, 0, 0,
    18, 10, 8, 10, 1, 2, 18, 3, 2, 0, 16, 10, 10, 10, 2, 4, 0, 18, 4, 4, 0, 5, 1, 10, 10, 10, 3,
    4, 0, 1, 18, 3, 4, 8, 17, 98, 6, 112, 114, 111, 116, 111, 51,
];

fn my_message_descriptor() -> MessageDescriptor {
    DescriptorPool::decode(FILE_DESCRIPTOR_SET_BYTES)
        .unwrap()
        .get_message_by_name("package.MyMessage")
        .unwrap()
}

#[test]
fn test_grpc_request() {
    let router = GrpcRouter::new().route("/package.MyService/MyMethod").build();
    assert_eq!(
        router.route_decision("POST", "/package.MyService/MyMethod"),
        Some(MethodShape::Unary)
    );
    let request = DynamicMessage::new(my_message_descriptor());
    let response = unary_outcome(Ok(request.clone())).unwrap();
    assert!(response == request);
}

#[test]
fn test_grpc_request_with_error() {
    let status = unary_outcome(Err(ErrorRecord::not_found("foo not found"))).unwrap_err();
    assert_eq!(status.code, 5);
    assert_eq!(status.message, "foo not found");
}

#[test]
fn test_grpc_router_shapes() {
    let router = GrpcRouter::new()
        .route("/s/Unary")
        .route_server_streaming("/s/Server")
        .route_client_streaming("/s/Client")
        .route_streaming("/s/Bidi")
        .build();
    assert_eq!(router.route_decision("POST", "/s/Unary"), Some(MethodShape::Unary));
    assert_eq!(
        router.route_decision("POST", "/s/Server"),
        Some(MethodShape::ServerStreaming)
    );
    assert_eq!(
        router.route_decision("POST", "/s/Client"),
        Some(MethodShape::ClientStreaming)
    );
    assert_eq!(router.route_decision("POST", "/s/Bidi"), Some(MethodShape::BidiStreaming));
    assert!(router.route_decision("POST", "/s/Missing").is_none());
}

#[test]
fn test_inbound_item_translation() {
    let message = DynamicMessage::new(my_message_descriptor());
    let forwarded = adapt_inbound_item(Ok(message.clone())).unwrap();
    assert!(forwarded == message);
    let error = adapt_inbound_item(Err(GrpcStatus {
        code: 5,
        message: "gone".to_string(),
    }))
    .unwrap_err();
    assert_eq!(error.code, ErrorCode::NotFound);
    assert_eq!(error.message, "gone");
}

#[test]
fn test_envelope_error_is_terminal() {
    let message = DynamicMessage::new(my_message_descriptor());
    let mut envelope = StreamingEnvelope::new();
    envelope.push_message(message.clone());
    envelope.push_message(message.clone());
    envelope.fail(ErrorRecord::not_found("foo not found"));
    let items = envelope.into_items();
    assert_eq!(items.len(), 3);
    for (i, item) in items.iter().enumerate() {
        match item {
            EnvelopeItem::Message(_) => assert!(i < 2),
            EnvelopeItem::Failure(e) => {
                assert_eq!(i, items.len() - 1);
                assert_eq!(e.code, ErrorCode::NotFound);
            }
        }
    }
}

#[test]
fn test_adapt_envelope_with_terminal_error() {
    let message = DynamicMessage::new(my_message_descriptor());
    let mut envelope = StreamingEnvelope::new();
    envelope.push_message(message.clone());
    envelope.push_message(message.clone());
    envelope.fail(ErrorRecord::not_found("foo not found"));
    let (messages, status) = adapt_envelope(envelope);
    assert_eq!(messages.len(), 2);
    let status = status.unwrap();
    assert_eq!(status.code, 5);
    assert_eq!(status.message, "foo not found");
}

#[test]
fn test_adapt_envelope_without_error() {
    let message = DynamicMessage::new(my_message_descriptor());
    let mut envelope = StreamingEnvelope::new();
    envelope.push_message(message.clone());
    let (messages, status) = adapt_envelope(envelope);
    assert_eq!(messages.len(), 1);
    assert!(status.is_none());
}

#[test]
fn test_grpc_request_parts() {
    let headers = vec![(b"content-type".to_vec(), b"application/grpc".to_vec())];
    let parts = grpc_request_parts("/package.MyService/MyMethod".to_string(), headers);
    assert_eq!(parts.method, "POST");
    assert_eq!(parts.path, "/package.MyService/MyMethod");
    assert_eq!(
        parts.header(b"content-type"),
        Some(&b"application/grpc".to_vec())
    );
    assert!(parts.header(b"accept").is_none());
}
