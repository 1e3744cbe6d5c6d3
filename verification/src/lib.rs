//! Transport-agnostic core of an RPC bridge that serves the same handlers
//! over a Twirp-style HTTP surface and a gRPC-style streaming surface.

pub mod codec;
pub mod errors;
pub mod grpc;
pub mod json;
pub mod lift;
pub mod negotiate;
pub mod router;
pub mod text;
