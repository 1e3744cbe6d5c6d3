//! The streaming surface: the adaptation of handler outcomes and streams to
//! the framed-RPC transport's four capability shapes, the translation of
//! taxonomy errors into transport statuses, and the transport-agnostic
//! request parts handed to every handler.

use crate::errors::{ErrorCode, ErrorRecord};
use crate::router::RouteTable;
use crate::text::bytes_eq;
use vstd::prelude::*;
use vstd::string::StringExecFns;

verus! {

/// The four invocation shapes the streaming transport can request for a
/// method.
#[derive(Clone, Copy, PartialEq, Eq, Structural, Debug)]
pub enum MethodShape {
    Unary,
    ServerStreaming,
    ClientStreaming,
    BidiStreaming,
}

/// A status of the streaming transport: its numeric code and a message.
#[derive(Debug)]
pub struct GrpcStatus {
    pub code: u32,
    pub message: String,
}

/// Translates an error record into the transport's terminal status: the
/// taxonomy-derived code, and the record's exact message text.
pub fn status_of(error: &ErrorRecord) -> (r: GrpcStatus)
    ensures
        r.code == error.code.spec_grpc_code(),
        r.message@ == error.message@,
{
    GrpcStatus { code: error.code.grpc_code(), message: error.message.clone() }
}

/// Classifies an inbound transport status as an error record, so that a
/// handler never sees transport types. The message travels verbatim; the
/// status is remembered as the diagnostic cause.
pub fn error_of_status(status: GrpcStatus) -> (r: ErrorRecord)
    ensures
        r.code == ErrorCode::spec_from_grpc_code(status.code),
        r.message@ == status.message@,
        r.cause is Some,
{
    let cause = status.message.clone();
    ErrorRecord::wrap(ErrorCode::from_grpc_code(status.code), status.message, cause)
}

/// Adapts a unary (or client-streaming) handler outcome to the transport:
/// the default response on success, a taxonomy-derived terminal status on
/// failure.
pub fn unary_outcome(outcome: Result<prost_reflect::DynamicMessage, ErrorRecord>) -> (r: Result<
    prost_reflect::DynamicMessage,
    GrpcStatus,
>)
    ensures
        outcome matches Ok(m) ==> r == Ok::<prost_reflect::DynamicMessage, GrpcStatus>(m),
        outcome matches Err(e) ==> (r matches Err(s) && s.code == e.code.spec_grpc_code()
            && s.message@ == e.message@),
{
    match outcome {
        Ok(message) => Ok(message),
        Err(error) => Err(status_of(&error)),
    }
}

/// Adapts one item of the transport's inbound message sequence, one for
/// one: messages pass through, a per-item failure becomes its taxonomy
/// representation. Message boundaries are never merged or dropped.
pub fn adapt_inbound_item(item: Result<prost_reflect::DynamicMessage, GrpcStatus>) -> (r: Result<
    prost_reflect::DynamicMessage,
    ErrorRecord,
>)
    ensures
        item matches Ok(m) ==> r == Ok::<prost_reflect::DynamicMessage, ErrorRecord>(m),
        item matches Err(s) ==> (r matches Err(e) && e.code == ErrorCode::spec_from_grpc_code(
            s.code,
        ) && e.message@ == s.message@),
{
    match item {
        Ok(message) => Ok(message),
        Err(status) => Err(error_of_status(status)),
    }
}

/// The immutable bundle of method, path and headers passed unchanged into
/// every handler, regardless of transport.
pub struct RequestParts {
    pub method: String,
    pub path: String,
    pub headers: Vec<(Vec<u8>, Vec<u8>)>,
}

impl RequestParts {
    /// The value of the first header with the given name, if any.
    pub fn header(&self, name: &[u8]) -> (r: Option<&Vec<u8>>)
        ensures
            r is Some <==> exists|i: int|
                0 <= i < self.headers@.len() && #[trigger] self.headers@[i].0@ == name@,
            r matches Some(v) ==> exists|i: int|
                0 <= i < self.headers@.len() && #[trigger] self.headers@[i].0@ == name@
                    && self.headers@[i].1@ == v@,
    {
        let mut i: usize = 0;
        while i < self.headers.len()
            invariant
                i <= self.headers@.len(),
                forall|j: int| 0 <= j < i ==> #[trigger] self.headers@[j].0@ != name@,
            decreases self.headers@.len() - i,
        {
            if bytes_eq(self.headers[i].0.as_slice(), name) {
                proof {
                    assert(self.headers@[i as int].0@ == name@);
                }
                return Some(&self.headers[i].1);
            }
            i += 1;
        }
        None
    }
}

/// Builds the request parts a handler sees on the streaming surface from
/// the transport's connection metadata: the method is fixed to POST for
/// symmetry with the HTTP surface, and the metadata headers travel
/// unchanged.
pub fn grpc_request_parts(path: String, headers: Vec<(Vec<u8>, Vec<u8>)>) -> (r: RequestParts)
    ensures
        r.method@ == "POST"@,
        r.path@ == path@,
        r.headers@ == headers@,
{
    RequestParts { method: String::from_str("POST"), path, headers }
}

/// One item of a streaming handler's output sequence: a message, or the
/// failure that ends the sequence.
pub enum EnvelopeItem {
    Message(prost_reflect::DynamicMessage),
    Failure(ErrorRecord),
}

impl EnvelopeItem {
    /// This item ends the sequence with an error.
    pub open spec fn spec_is_failure(self) -> bool {
        self matches EnvelopeItem::Failure(_)
    }
}

/// A streaming handler's output sequence, as produced so far: a sequence of
/// messages with at most one error, which must be the terminal item.
pub struct StreamingEnvelope {
    items: Vec<EnvelopeItem>,
}

impl StreamingEnvelope {
    /// The items produced so far, in order.
    pub closed spec fn spec_items(self) -> Seq<EnvelopeItem> {
        self.items@
    }

    /// No item follows an error item.
    pub open spec fn wf(self) -> bool {
        forall|i: int|
            0 <= i < self.spec_items().len() && (#[trigger] self.spec_items()[i]).spec_is_failure()
                ==> i == self.spec_items().len() - 1
    }

    /// More items may still be produced: nothing so far was an error.
    pub open spec fn spec_open(self) -> bool {
        forall|i: int|
            0 <= i < self.spec_items().len() ==> !(#[trigger] self.spec_items()[i]).spec_is_failure()
    }

    pub fn new() -> (r: StreamingEnvelope)
        ensures
            r.spec_items().len() == 0,
            r.wf(),
            r.spec_open(),
    {
        StreamingEnvelope { items: Vec::new() }
    }

    /// Produces one more message. Only an envelope that has not failed can
    /// grow, so an error item can never be followed by anything.
    pub fn push_message(&mut self, message: prost_reflect::DynamicMessage)
        requires
            old(self).wf(),
            old(self).spec_open(),
        ensures
            final(self).spec_items() == old(self).spec_items().push(
                EnvelopeItem::Message(message),
            ),
            final(self).wf(),
            final(self).spec_open(),
    {
        self.items.push(EnvelopeItem::Message(message));
    }

    /// Ends the sequence with an error: the terminal and only error item.
    pub fn fail(&mut self, error: ErrorRecord)
        requires
            old(self).wf(),
            old(self).spec_open(),
        ensures
            final(self).spec_items() == old(self).spec_items().push(EnvelopeItem::Failure(error)),
            final(self).wf(),
            !final(self).spec_open(),
    {
        self.items.push(EnvelopeItem::Failure(error));
        proof {
            assert(self.spec_items()[self.spec_items().len() - 1].spec_is_failure());
            assert forall|i: int|
                0 <= i < self.spec_items().len() && (#[trigger] self.spec_items()[
                    i
                ]).spec_is_failure() implies i == self.spec_items().len() - 1 by {
                if i < self.spec_items().len() - 1 {
                    assert(old(self).spec_items()[i].spec_is_failure());
                }
            }
            assert(!self.spec_open());
        }
    }

    /// The produced items, in order.
    pub fn into_items(self) -> (r: Vec<EnvelopeItem>)
        ensures
            r@ == self.spec_items(),
    {
        self.items
    }

    /// An error can only be the last item: in every envelope this API can
    /// produce, an error item at index `i` means the sequence has length
    /// `i + 1`.
    pub proof fn lemma_error_is_terminal(self)
        requires
            self.wf(),
        ensures
            forall|i: int|
                0 <= i < self.spec_items().len() && (#[trigger] self.spec_items()[i]).spec_is_failure()
                    ==> self.spec_items().len() == i + 1,
    {
    }
}

/// Adapts a whole handler output sequence for the transport: every message
/// is forwarded in order, and the error, if one ended the sequence, becomes
/// the terminal status that closes the stream. Nothing is ever emitted
/// after the error.
pub fn adapt_envelope(envelope: StreamingEnvelope) -> (r: (
    Vec<prost_reflect::DynamicMessage>,
    Option<GrpcStatus>,
))
    requires
        envelope.wf(),
    ensures
        forall|i: int|
            0 <= i < r.0@.len() ==> envelope.spec_items()[i] == EnvelopeItem::Message(#[trigger] r.0@[i]),
        envelope.spec_open() ==> r.1 is None && r.0@.len() == envelope.spec_items().len(),
        !envelope.spec_open() ==> (r.1 matches Some(s) && r.0@.len() == envelope.spec_items().len()
            - 1 && (envelope.spec_items().last() matches EnvelopeItem::Failure(e) && s.code
            == e.code.spec_grpc_code() && s.message@ == e.message@)),
{
    let ghost all = envelope.spec_items();
    let mut items = envelope.into_items();
    let mut messages: Vec<prost_reflect::DynamicMessage> = Vec::new();
    let mut status: Option<GrpcStatus> = None;
    let ghost mut k: int = 0;
    while items.len() > 0
        invariant
            0 <= k <= all.len(),
            items@ == all.subrange(k, all.len() as int),
            forall|j: int|
                0 <= j < all.len() && (#[trigger] all[j]).spec_is_failure() ==> j == all.len() - 1,
            status is None ==> k == messages@.len(),
            forall|j: int|
                0 <= j < messages@.len() ==> all[j] == EnvelopeItem::Message(
                    #[trigger] messages@[j],
                ),
            status matches Some(s) ==> k == all.len() && all.len() > 0 && messages@.len()
                == all.len() - 1 && (all[all.len() - 1] matches EnvelopeItem::Failure(e) && s.code
                == e.code.spec_grpc_code() && s.message@ == e.message@),
        decreases items@.len(),
    {
        proof {
            assert(k < all.len());
            if status is Some {
                assert(false);
            }
        }
        let item = items.remove(0);
        proof {
            assert(item == all[k]);
            assert(items@ =~= all.subrange(k + 1, all.len() as int));
        }
        match item {
            EnvelopeItem::Message(m) => {
                messages.push(m);
                proof {
                    k = k + 1;
                }
            },
            EnvelopeItem::Failure(e) => {
                proof {
                    assert(all[k].spec_is_failure());
                    assert(k == all.len() - 1);
                }
                status = Some(status_of(&e));
                proof {
                    k = k + 1;
                }
            },
        }
    }
    proof {
        assert(all.subrange(k, all.len() as int).len() == 0);
        if !envelope.spec_open() {
            let j = choose|j: int| 0 <= j < all.len() && (#[trigger] all[j]).spec_is_failure();
            if status is None {
                assert(all[j] == EnvelopeItem::Message(messages@[j]));
            }
        }
        if envelope.spec_open() && status is Some {
            assert(all[all.len() - 1].spec_is_failure());
        }
    }
    (messages, status)
}

/// The table of bound paths of the streaming surface, each with the
/// capability shape under which the transport invokes it.
pub struct GrpcRouter {
    table: RouteTable<MethodShape>,
}

impl GrpcRouter {
    /// The bindings, in registration order.
    pub closed spec fn spec_routes(self) -> Seq<(String, MethodShape)> {
        self.table.spec_routes()
    }

    /// `path` is bound in the table.
    pub closed spec fn spec_bound(self, path: Seq<char>) -> bool {
        self.table.spec_bound(path)
    }

    /// `path` is bound with shape `shape`.
    pub closed spec fn spec_bound_as(self, path: Seq<char>, shape: MethodShape) -> bool {
        self.table.spec_bound_as(path, shape)
    }

    /// No path is bound twice.
    pub closed spec fn wf(self) -> bool {
        self.table.wf()
    }

    pub fn new() -> (r: GrpcRouter)
        ensures
            r.spec_routes().len() == 0,
            r.wf(),
    {
        GrpcRouter { table: RouteTable::new() }
    }

    /// Binds a path to a unary handler: one input, one output.
    pub fn route(self, path: &str) -> (r: GrpcRouter)
        requires
            self.wf(),
            !self.spec_bound(path@),
        ensures
            r.wf(),
            forall|p: Seq<char>| r.spec_bound(p) <==> self.spec_bound(p) || p == path@,
            r.spec_bound_as(path@, MethodShape::Unary),
    {
        GrpcRouter { table: self.table.bind(path, MethodShape::Unary) }
    }

    /// Binds a path to a server-streaming handler: one input, an output
    /// sequence.
    pub fn route_server_streaming(self, path: &str) -> (r: GrpcRouter)
        requires
            self.wf(),
            !self.spec_bound(path@),
        ensures
            r.wf(),
            forall|p: Seq<char>| r.spec_bound(p) <==> self.spec_bound(p) || p == path@,
            r.spec_bound_as(path@, MethodShape::ServerStreaming),
    {
        GrpcRouter { table: self.table.bind(path, MethodShape::ServerStreaming) }
    }

    /// Binds a path to a client-streaming handler: an input sequence, one
    /// output.
    pub fn route_client_streaming(self, path: &str) -> (r: GrpcRouter)
        requires
            self.wf(),
            !self.spec_bound(path@),
        ensures
            r.wf(),
            forall|p: Seq<char>| r.spec_bound(p) <==> self.spec_bound(p) || p == path@,
            r.spec_bound_as(path@, MethodShape::ClientStreaming),
    {
        GrpcRouter { table: self.table.bind(path, MethodShape::ClientStreaming) }
    }

    /// Binds a path to a bidirectional-streaming handler: an input sequence,
    /// an output sequence.
    pub fn route_streaming(self, path: &str) -> (r: GrpcRouter)
        requires
            self.wf(),
            !self.spec_bound(path@),
        ensures
            r.wf(),
            forall|p: Seq<char>| r.spec_bound(p) <==> self.spec_bound(p) || p == path@,
            r.spec_bound_as(path@, MethodShape::BidiStreaming),
    {
        GrpcRouter { table: self.table.bind(path, MethodShape::BidiStreaming) }
    }

    /// The finished, immutable table.
    pub fn build(self) -> (r: GrpcRouter)
        ensures
            r == self,
    {
        self
    }

    /// The shape under which a POST request to a bound path is invoked;
    /// anything else is a routing miss.
    pub fn route_decision(&self, method: &str, path: &str) -> (r: Option<MethodShape>)
        requires
            self.wf(),
        ensures
            r is Some <==> method@ == "POST"@ && self.spec_bound(path@),
            r matches Some(shape) ==> self.spec_bound_as(path@, shape),
    {
        self.table.route_decision(method, path)
    }
}

} // verus!
