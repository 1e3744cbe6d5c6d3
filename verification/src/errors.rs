//! Canonical error taxonomy shared by both protocol surfaces.
//!
//! Every error carries one taxonomy code and a caller-supplied message that
//! appears verbatim on the wire. Each code has a fixed, total mapping to one
//! HTTP status and to one streaming-transport status code.

use vstd::prelude::*;

verus! {

/// Canonical error classification, shared identically across both protocol
/// surfaces.
#[derive(Clone, Copy, PartialEq, Eq, Structural, Debug)]
pub enum ErrorCode {
    Cancelled,
    Unknown,
    InvalidArgument,
    Malformed,
    DeadlineExceeded,
    NotFound,
    BadRoute,
    AlreadyExists,
    PermissionDenied,
    Unauthenticated,
    ResourceExhausted,
    FailedPrecondition,
    Aborted,
    OutOfRange,
    Unimplemented,
    Internal,
    Unavailable,
    DataLoss,
}

impl ErrorCode {
    /// The identifier under which this code appears in JSON error bodies.
    pub open spec fn spec_name(self) -> Seq<char> {
        match self {
            ErrorCode::Cancelled => "canceled"@,
            ErrorCode::Unknown => "unknown"@,
            ErrorCode::InvalidArgument => "invalid_argument"@,
            ErrorCode::Malformed => "malformed"@,
            ErrorCode::DeadlineExceeded => "deadline_exceeded"@,
            ErrorCode::NotFound => "not_found"@,
            ErrorCode::BadRoute => "bad_route"@,
            ErrorCode::AlreadyExists => "already_exists"@,
            ErrorCode::PermissionDenied => "permission_denied"@,
            ErrorCode::Unauthenticated => "unauthenticated"@,
            ErrorCode::ResourceExhausted => "resource_exhausted"@,
            ErrorCode::FailedPrecondition => "failed_precondition"@,
            ErrorCode::Aborted => "aborted"@,
            ErrorCode::OutOfRange => "out_of_range"@,
            ErrorCode::Unimplemented => "unimplemented"@,
            ErrorCode::Internal => "internal"@,
            ErrorCode::Unavailable => "unavailable"@,
            ErrorCode::DataLoss => "dataloss"@,
        }
    }

    /// The identifier under which this code appears in JSON error bodies.
    pub fn name(self) -> (r: &'static str)
        ensures
            r@ == self.spec_name(),
    {
        match self {
            ErrorCode::Cancelled => "canceled",
            ErrorCode::Unknown => "unknown",
            ErrorCode::InvalidArgument => "invalid_argument",
            ErrorCode::Malformed => "malformed",
            ErrorCode::DeadlineExceeded => "deadline_exceeded",
            ErrorCode::NotFound => "not_found",
            ErrorCode::BadRoute => "bad_route",
            ErrorCode::AlreadyExists => "already_exists",
            ErrorCode::PermissionDenied => "permission_denied",
            ErrorCode::Unauthenticated => "unauthenticated",
            ErrorCode::ResourceExhausted => "resource_exhausted",
            ErrorCode::FailedPrecondition => "failed_precondition",
            ErrorCode::Aborted => "aborted",
            ErrorCode::OutOfRange => "out_of_range",
            ErrorCode::Unimplemented => "unimplemented",
            ErrorCode::Internal => "internal",
            ErrorCode::Unavailable => "unavailable",
            ErrorCode::DataLoss => "dataloss",
        }
    }

    /// The HTTP status of this code on the Twirp surface.
    pub open spec fn spec_http_status(self) -> u16 {
        match self {
            ErrorCode::Cancelled => 408,
            ErrorCode::Unknown => 500,
            ErrorCode::InvalidArgument => 400,
            ErrorCode::Malformed => 400,
            ErrorCode::DeadlineExceeded => 408,
            ErrorCode::NotFound => 404,
            ErrorCode::BadRoute => 404,
            ErrorCode::AlreadyExists => 409,
            ErrorCode::PermissionDenied => 403,
            ErrorCode::Unauthenticated => 401,
            ErrorCode::ResourceExhausted => 429,
            ErrorCode::FailedPrecondition => 412,
            ErrorCode::Aborted => 409,
            ErrorCode::OutOfRange => 400,
            ErrorCode::Unimplemented => 501,
            ErrorCode::Internal => 500,
            ErrorCode::Unavailable => 503,
            ErrorCode::DataLoss => 503,
        }
    }

    /// The HTTP status of this code on the Twirp surface.
    pub fn http_status(self) -> (r: u16)
        ensures
            r == self.spec_http_status(),
    {
        match self {
            ErrorCode::Cancelled => 408,
            ErrorCode::Unknown => 500,
            ErrorCode::InvalidArgument => 400,
            ErrorCode::Malformed => 400,
            ErrorCode::DeadlineExceeded => 408,
            ErrorCode::NotFound => 404,
            ErrorCode::BadRoute => 404,
            ErrorCode::AlreadyExists => 409,
            ErrorCode::PermissionDenied => 403,
            ErrorCode::Unauthenticated => 401,
            ErrorCode::ResourceExhausted => 429,
            ErrorCode::FailedPrecondition => 412,
            ErrorCode::Aborted => 409,
            ErrorCode::OutOfRange => 400,
            ErrorCode::Unimplemented => 501,
            ErrorCode::Internal => 500,
            ErrorCode::Unavailable => 503,
            ErrorCode::DataLoss => 503,
        }
    }

    /// The numeric status code of this code on the streaming surface.
    pub open spec fn spec_grpc_code(self) -> u32 {
        match self {
            ErrorCode::Cancelled => 1,
            ErrorCode::Unknown => 2,
            ErrorCode::InvalidArgument => 3,
            ErrorCode::Malformed => 3,
            ErrorCode::DeadlineExceeded => 4,
            ErrorCode::NotFound => 5,
            ErrorCode::BadRoute => 5,
            ErrorCode::AlreadyExists => 6,
            ErrorCode::PermissionDenied => 7,
            ErrorCode::Unauthenticated => 16,
            ErrorCode::ResourceExhausted => 8,
            ErrorCode::FailedPrecondition => 9,
            ErrorCode::Aborted => 10,
            ErrorCode::OutOfRange => 11,
            ErrorCode::Unimplemented => 12,
            ErrorCode::Internal => 13,
            ErrorCode::Unavailable => 14,
            ErrorCode::DataLoss => 15,
        }
    }

    /// The numeric status code of this code on the streaming surface.
    pub fn grpc_code(self) -> (r: u32)
        ensures
            r == self.spec_grpc_code(),
    {
        match self {
            ErrorCode::Cancelled => 1,
            ErrorCode::Unknown => 2,
            ErrorCode::InvalidArgument => 3,
            ErrorCode::Malformed => 3,
            ErrorCode::DeadlineExceeded => 4,
            ErrorCode::NotFound => 5,
            ErrorCode::BadRoute => 5,
            ErrorCode::AlreadyExists => 6,
            ErrorCode::PermissionDenied => 7,
            ErrorCode::Unauthenticated => 16,
            ErrorCode::ResourceExhausted => 8,
            ErrorCode::FailedPrecondition => 9,
            ErrorCode::Aborted => 10,
            ErrorCode::OutOfRange => 11,
            ErrorCode::Unimplemented => 12,
            ErrorCode::Internal => 13,
            ErrorCode::Unavailable => 14,
            ErrorCode::DataLoss => 15,
        }
    }

    /// The taxonomy code under which an inbound streaming-transport status
    /// code is classified. `0` is the transport's success code and carries no
    /// classification of its own, so it lands on `Unknown`, as does any
    /// number outside the transport's fixed code range.
    pub open spec fn spec_from_grpc_code(code: u32) -> ErrorCode {
        if code == 1 {
            ErrorCode::Cancelled
        } else if code == 3 {
            ErrorCode::InvalidArgument
        } else if code == 4 {
            ErrorCode::DeadlineExceeded
        } else if code == 5 {
            ErrorCode::NotFound
        } else if code == 6 {
            ErrorCode::AlreadyExists
        } else if code == 7 {
            ErrorCode::PermissionDenied
        } else if code == 8 {
            ErrorCode::ResourceExhausted
        } else if code == 9 {
            ErrorCode::FailedPrecondition
        } else if code == 10 {
            ErrorCode::Aborted
        } else if code == 11 {
            ErrorCode::OutOfRange
        } else if code == 12 {
            ErrorCode::Unimplemented
        } else if code == 13 {
            ErrorCode::Internal
        } else if code == 14 {
            ErrorCode::Unavailable
        } else if code == 15 {
            ErrorCode::DataLoss
        } else if code == 16 {
            ErrorCode::Unauthenticated
        } else {
            ErrorCode::Unknown
        }
    }

    /// Classifies an inbound streaming-transport status code.
    pub fn from_grpc_code(code: u32) -> (r: ErrorCode)
        ensures
            r == ErrorCode::spec_from_grpc_code(code),
    {
        if code == 1 {
            ErrorCode::Cancelled
        } else if code == 3 {
            ErrorCode::InvalidArgument
        } else if code == 4 {
            ErrorCode::DeadlineExceeded
        } else if code == 5 {
            ErrorCode::NotFound
        } else if code == 6 {
            ErrorCode::AlreadyExists
        } else if code == 7 {
            ErrorCode::PermissionDenied
        } else if code == 8 {
            ErrorCode::ResourceExhausted
        } else if code == 9 {
            ErrorCode::FailedPrecondition
        } else if code == 10 {
            ErrorCode::Aborted
        } else if code == 11 {
            ErrorCode::OutOfRange
        } else if code == 12 {
            ErrorCode::Unimplemented
        } else if code == 13 {
            ErrorCode::Internal
        } else if code == 14 {
            ErrorCode::Unavailable
        } else if code == 15 {
            ErrorCode::DataLoss
        } else if code == 16 {
            ErrorCode::Unauthenticated
        } else {
            ErrorCode::Unknown
        }
    }
}

/// One error as it travels through the bridge: a taxonomy code, a message
/// that appears verbatim on the wire, and an optional diagnostic cause that
/// is kept for local logging and never serialized.
#[derive(Debug)]
pub struct ErrorRecord {
    pub code: ErrorCode,
    pub message: String,
    pub cause: Option<String>,
}

impl ErrorRecord {
    pub fn new(code: ErrorCode, message: String) -> (r: ErrorRecord)
        ensures
            r.code == code,
            r.message@ == message@,
            r.cause is None,
    {
        ErrorRecord { code, message, cause: None }
    }

    /// An error that wraps the textual description of an underlying failure;
    /// the description is diagnostic only and stays off the wire.
    pub fn wrap(code: ErrorCode, message: String, cause: String) -> (r: ErrorRecord)
        ensures
            r.code == code,
            r.message@ == message@,
            r.cause == Some(cause),
    {
        ErrorRecord { code, message, cause: Some(cause) }
    }

    pub fn malformed(message: &str) -> (r: ErrorRecord)
        ensures
            r.code == ErrorCode::Malformed,
            r.message@ == message@,
            r.cause is None,
    {
        ErrorRecord { code: ErrorCode::Malformed, message: message.to_owned(), cause: None }
    }

    pub fn not_found(message: &str) -> (r: ErrorRecord)
        ensures
            r.code == ErrorCode::NotFound,
            r.message@ == message@,
            r.cause is None,
    {
        ErrorRecord { code: ErrorCode::NotFound, message: message.to_owned(), cause: None }
    }

    pub fn unimplemented(message: &str) -> (r: ErrorRecord)
        ensures
            r.code == ErrorCode::Unimplemented,
            r.message@ == message@,
            r.cause is None,
    {
        ErrorRecord { code: ErrorCode::Unimplemented, message: message.to_owned(), cause: None }
    }

    pub fn internal(message: &str) -> (r: ErrorRecord)
        ensures
            r.code == ErrorCode::Internal,
            r.message@ == message@,
            r.cause is None,
    {
        ErrorRecord { code: ErrorCode::Internal, message: message.to_owned(), cause: None }
    }
}

} // verus!
