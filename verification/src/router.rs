//! The HTTP surface: a table of bound paths, and the per-request pipeline
//! that negotiates the wire format, decodes the body, and renders the
//! handler's outcome — or any failure on the way — as an HTTP response.

use crate::codec;
use crate::errors::{ErrorCode, ErrorRecord};
use crate::json::spec_error_body;
use crate::negotiate::{
    negotiate, spec_binary_content_type, spec_json_content_type,
    spec_no_content_type_message, spec_unsupported_content_type_message, WireFormat,
};
use crate::text::{has_prefix, str_eq};
use vstd::prelude::*;
use vstd::string::StringExecFns;

verus! {

/// How a bound path answers: through a unary handler, or — where the path
/// was registered as explicitly streaming-unsupported — always with an
/// `Unimplemented` error, since this transport has no streaming capability.
#[derive(Clone, Copy, PartialEq, Eq, Structural, Debug)]
pub enum RouteKind {
    Unary,
    StreamingUnsupported,
}

/// One complete HTTP response of the Twirp surface: either the encoded
/// output with status 200, or a complete JSON error body, never anything
/// partial.
pub struct TwirpResponse {
    pub status: u16,
    pub content_type: Option<Vec<u8>>,
    pub body: Vec<u8>,
}

/// The response that renders an error record: the taxonomy-derived status,
/// a JSON content type, and the canonical JSON error body.
pub open spec fn spec_is_error_response(r: TwirpResponse, code: ErrorCode, message: Seq<char>) -> bool {
    &&& r.status == code.spec_http_status()
    &&& r.content_type matches Some(ct) && ct@ == spec_json_content_type()
    &&& r.body@ == spec_error_body(code, message)
}

/// Maps an error record to its HTTP response.
pub fn error_response(error: &ErrorRecord) -> (r: TwirpResponse)
    ensures
        spec_is_error_response(r, error.code, error.message@),
{
    TwirpResponse {
        status: error.code.http_status(),
        content_type: Some(WireFormat::Json.content_type()),
        body: crate::json::error_body(error),
    }
}

/// The routing-miss error of a path: NotFound-class, code `bad_route`.
pub fn bad_route(path: &str) -> (r: ErrorRecord)
    ensures
        r.code == ErrorCode::BadRoute,
        r.message@ == path@ + " is not a supported Twirp method"@,
        r.cause is None,
{
    let mut message = String::from_str(path);
    message.append(" is not a supported Twirp method");
    ErrorRecord::new(ErrorCode::BadRoute, message)
}

/// The response of a request whose method and path match no binding.
pub fn miss_response(path: &str) -> (r: TwirpResponse)
    ensures
        spec_is_error_response(r, ErrorCode::BadRoute, path@ + " is not a supported Twirp method"@),
{
    let error = bad_route(path);
    error_response(&error)
}

/// The response of a path registered as streaming-unsupported, whatever the
/// payload.
pub fn streaming_unsupported_response() -> (r: TwirpResponse)
    ensures
        spec_is_error_response(r, ErrorCode::Unimplemented, "Streaming is not supported by Twirp"@),
{
    let error = ErrorRecord::unimplemented("Streaming is not supported by Twirp");
    error_response(&error)
}

/// Negotiates the wire format from the content-type header and decodes the
/// request body with it. Any failure short-circuits to a `Malformed` error
/// before the handler is reached.
pub fn decode_request(
    descriptor: &prost_reflect::MessageDescriptor,
    content_type: Option<&Vec<u8>>,
    body: &[u8],
) -> (r: Result<(WireFormat, prost_reflect::DynamicMessage), ErrorRecord>)
    ensures
        content_type is None ==> (r matches Err(e) && e.code == ErrorCode::Malformed && e.message@
            == spec_no_content_type_message()),
        content_type matches Some(v) ==> (v@ != spec_binary_content_type() && v@
            != spec_json_content_type() ==> (r matches Err(e) && e.code == ErrorCode::Malformed
            && e.message@ == spec_unsupported_content_type_message(v@))),
        content_type matches Some(v) ==> (v@ == spec_binary_content_type() ==> (body@.len() == 0
            ==> r is Ok)),
        content_type matches Some(v) ==> (v@ == spec_binary_content_type() ==> (r matches Ok(p)
            ==> p.0 == WireFormat::Binary)),
        content_type matches Some(v) ==> (v@ == spec_json_content_type() ==> (r matches Ok(p)
            ==> p.0 == WireFormat::Json)),
        r matches Err(e) ==> e.code == ErrorCode::Malformed,
        content_type matches Some(v) ==> (v@ == spec_binary_content_type() || v@
            == spec_json_content_type() ==> (r matches Err(e) ==> has_prefix(
            e.message@,
            codec::spec_decode_failure_prefix(
                if v@ == spec_binary_content_type() {
                    WireFormat::Binary
                } else {
                    WireFormat::Json
                },
            ),
        ))),
{
    let format = match negotiate(content_type) {
        Ok(format) => format,
        Err(e) => return Err(e),
    };
    match codec::decode(format, descriptor, body) {
        Ok(message) => Ok((format, message)),
        Err(e) => Err(e),
    }
}

/// Renders the handler's outcome with the same wire format that the request
/// negotiated: on success the encoded output travels with status 200 and
/// the matching content type; any failure becomes its canonical error
/// response.
pub fn respond(
    format: WireFormat,
    outcome: Result<prost_reflect::DynamicMessage, ErrorRecord>,
) -> (r: TwirpResponse)
    ensures
        outcome matches Err(e) ==> spec_is_error_response(r, e.code, e.message@),
        outcome is Ok && format == WireFormat::Binary ==> r.status == 200 && (r.content_type
            matches Some(ct) && ct@ == format.spec_content_type()),
        outcome is Ok ==> (r.status == 200 && (r.content_type matches Some(ct) && ct@
            == format.spec_content_type())) || spec_is_error_response(
            r,
            ErrorCode::Internal,
            "Failed to build the response"@,
        ),
{
    match outcome {
        Ok(message) => match codec::encode(format, &message) {
            Ok(body) => TwirpResponse {
                status: 200,
                content_type: Some(format.content_type()),
                body,
            },
            Err(e) => error_response(&e),
        },
        Err(e) => error_response(&e),
    }
}

/// A table that binds each path to at most one handler description. It is
/// built once at startup and is read-only afterwards, so concurrent lookups
/// need no synchronization.
pub struct RouteTable<K> {
    routes: Vec<(String, K)>,
}

impl<K: Copy> RouteTable<K> {
    /// The bindings, in registration order.
    pub closed spec fn spec_routes(self) -> Seq<(String, K)> {
        self.routes@
    }

    /// `path` is bound in the table.
    pub open spec fn spec_bound(self, path: Seq<char>) -> bool {
        exists|i: int| 0 <= i < self.spec_routes().len() && #[trigger] self.spec_routes()[i].0@
            == path
    }

    /// `path` is bound with kind `kind`.
    pub open spec fn spec_bound_as(self, path: Seq<char>, kind: K) -> bool {
        exists|i: int| 0 <= i < self.spec_routes().len() && #[trigger] self.spec_routes()[i].0@
            == path && self.spec_routes()[i].1 == kind
    }

    /// No path is bound twice.
    pub open spec fn wf(self) -> bool {
        forall|i: int, j: int|
            0 <= i < j < self.spec_routes().len() ==> #[trigger] self.spec_routes()[i].0@
                != #[trigger] self.spec_routes()[j].0@
    }

    pub fn new() -> (r: RouteTable<K>)
        ensures
            r.spec_routes().len() == 0,
            r.wf(),
    {
        RouteTable { routes: Vec::new() }
    }

    /// Binds a path. Binding a path twice is a startup defect, as it is for
    /// the underlying routing engine, so it is ruled out up front.
    pub fn bind(self, path: &str, kind: K) -> (r: RouteTable<K>)
        requires
            self.wf(),
            !self.spec_bound(path@),
        ensures
            r.wf(),
            r.spec_routes().len() == self.spec_routes().len() + 1,
            r.spec_routes().subrange(0, self.spec_routes().len() as int) == self.spec_routes(),
            r.spec_routes().last().0@ == path@,
            r.spec_routes().last().1 == kind,
            forall|p: Seq<char>| r.spec_bound(p) <==> self.spec_bound(p) || p == path@,
            r.spec_bound_as(path@, kind),
    {
        let ghost before = self.spec_routes();
        let RouteTable { mut routes } = self;
        let owned = path.to_owned();
        routes.push((owned, kind));
        let r = RouteTable { routes };
        proof {
            let rs = r.spec_routes();
            assert(rs.len() == before.len() + 1);
            assert(rs[before.len() as int].0@ == path@);
            assert(rs[before.len() as int].1 == kind);
            assert(rs.subrange(0, before.len() as int) =~= before);
            assert forall|i: int, j: int| 0 <= i < j < rs.len() implies rs[i].0@ != rs[j].0@ by {
                if j < before.len() {
                    assert(before[i].0@ != before[j].0@);
                } else {
                    assert(rs[j].0@ == path@);
                    if rs[i].0@ == path@ {
                        assert(before[i].0@ == path@);
                    }
                }
            }
            assert forall|p: Seq<char>|
                #[trigger] r.spec_bound(p) implies (exists|i: int|
                0 <= i < before.len() && #[trigger] before[i].0@ == p) || p == path@ by {
                let i = choose|i: int| 0 <= i < rs.len() && #[trigger] rs[i].0@ == p;
                if i < before.len() {
                    assert(before[i].0@ == p);
                }
            }
            assert forall|p: Seq<char>| (exists|i: int|
                0 <= i < before.len() && #[trigger] before[i].0@ == p) || p
                == path@ implies #[trigger] r.spec_bound(p) by {
                if exists|i: int| 0 <= i < before.len() && #[trigger] before[i].0@ == p {
                    let i = choose|i: int| 0 <= i < before.len() && #[trigger] before[i].0@ == p;
                    assert(rs[i].0@ == p);
                } else {
                    assert(rs[before.len() as int].0@ == p);
                }
            }
            assert(r.spec_bound_as(path@, kind)) by {
                assert(rs[before.len() as int].0@ == path@);
            }
        }
        r
    }

    /// How a request is routed: only POST requests to a bound path reach a
    /// binding; every other method or path is a routing miss.
    pub fn route_decision(&self, method: &str, path: &str) -> (r: Option<K>)
        requires
            self.wf(),
        ensures
            r is Some <==> method@ == "POST"@ && self.spec_bound(path@),
            r matches Some(kind) ==> self.spec_bound_as(path@, kind),
    {
        if !str_eq(method, "POST") {
            return None;
        }
        let mut i: usize = 0;
        while i < self.routes.len()
            invariant
                i <= self.routes@.len(),
                method@ == "POST"@,
                forall|j: int| 0 <= j < i ==> #[trigger] self.routes@[j].0@ != path@,
            decreases self.routes@.len() - i,
        {
            if str_eq(self.routes[i].0.as_str(), path) {
                let kind = self.routes[i].1;
                proof {
                    assert(self.spec_routes()[i as int].0@ == path@);
                    assert(self.spec_routes()[i as int].1 == kind);
                }
                return Some(kind);
            }
            i += 1;
        }
        None
    }
}

/// The table of bound paths of the Twirp surface.
pub struct TwirpRouter {
    table: RouteTable<RouteKind>,
}

impl TwirpRouter {
    /// The bindings, in registration order.
    pub closed spec fn spec_routes(self) -> Seq<(String, RouteKind)> {
        self.table.spec_routes()
    }

    /// `path` is bound in the table.
    pub closed spec fn spec_bound(self, path: Seq<char>) -> bool {
        self.table.spec_bound(path)
    }

    /// `path` is bound with kind `kind`.
    pub closed spec fn spec_bound_as(self, path: Seq<char>, kind: RouteKind) -> bool {
        self.table.spec_bound_as(path, kind)
    }

    /// No path is bound twice.
    pub closed spec fn wf(self) -> bool {
        self.table.wf()
    }

    pub fn new() -> (r: TwirpRouter)
        ensures
            r.spec_routes().len() == 0,
            r.wf(),
    {
        TwirpRouter { table: RouteTable::new() }
    }

    /// Binds a path to a unary handler.
    pub fn route(self, path: &str) -> (r: TwirpRouter)
        requires
            self.wf(),
            !self.spec_bound(path@),
        ensures
            r.wf(),
            forall|p: Seq<char>| r.spec_bound(p) <==> self.spec_bound(p) || p == path@,
            r.spec_bound_as(path@, RouteKind::Unary),
    {
        TwirpRouter { table: self.table.bind(path, RouteKind::Unary) }
    }

    /// Binds a path as explicitly streaming-unsupported: it always answers
    /// with an `Unimplemented` error regardless of payload, since this
    /// transport has no streaming capability.
    pub fn route_streaming(self, path: &str) -> (r: TwirpRouter)
        requires
            self.wf(),
            !self.spec_bound(path@),
        ensures
            r.wf(),
            forall|p: Seq<char>| r.spec_bound(p) <==> self.spec_bound(p) || p == path@,
            r.spec_bound_as(path@, RouteKind::StreamingUnsupported),
    {
        TwirpRouter { table: self.table.bind(path, RouteKind::StreamingUnsupported) }
    }

    /// The finished, immutable table.
    pub fn build(self) -> (r: TwirpRouter)
        ensures
            r == self,
    {
        self
    }

    /// How a request is routed: only POST requests to a bound path reach a
    /// binding; every other method or path is a routing miss.
    pub fn route_decision(&self, method: &str, path: &str) -> (r: Option<RouteKind>)
        requires
            self.wf(),
        ensures
            r is Some <==> method@ == "POST"@ && self.spec_bound(path@),
            r matches Some(kind) ==> self.spec_bound_as(path@, kind),
    {
        self.table.route_decision(method, path)
    }
}

} // verus!
