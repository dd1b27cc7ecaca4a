//! gRPC statuses: a code and a message, and the mapping of [`A2aError`]
//! onto them.
use vstd::prelude::*;

use crate::error::{A2aError, lemma_status_name_literals, spec_grpc_status_name, spec_standard_message};
use crate::text::str_eq;

verus! {

/// The canonical gRPC status codes (`Success` is the code named `OK`).
#[derive(Debug, Clone, Copy, PartialEq, Eq)]
pub enum GrpcCode {
    Success,
    Cancelled,
    Unknown,
    InvalidArgument,
    DeadlineExceeded,
    NotFound,
    AlreadyExists,
    PermissionDenied,
    ResourceExhausted,
    FailedPrecondition,
    Aborted,
    OutOfRange,
    Unimplemented,
    Internal,
    Unavailable,
    DataLoss,
    Unauthenticated,
}

/// A gRPC status: a code and a human-readable message.
#[derive(Debug, PartialEq)]
pub struct RpcStatus {
    pub code: GrpcCode,
    pub message: String,
}

/// `status` has code `code` and message text `message`.
pub open spec fn status_is(status: RpcStatus, code: GrpcCode, message: Seq<char>) -> bool {
    status.code == code && status.message@ == message
}

impl RpcStatus {
    /// A status with the given code and message.
    pub fn new(code: GrpcCode, message: String) -> (r: RpcStatus)
        ensures
            r.code == code,
            r.message == message,
    {
        RpcStatus { code, message }
    }

    /// An `INVALID_ARGUMENT` status.
    pub fn invalid_argument(message: &str) -> (r: RpcStatus)
        ensures
            status_is(r, GrpcCode::InvalidArgument, message@),
    {
        RpcStatus { code: GrpcCode::InvalidArgument, message: String::from_str(message) }
    }

    /// An `INTERNAL` status.
    pub fn internal(message: &str) -> (r: RpcStatus)
        ensures
            status_is(r, GrpcCode::Internal, message@),
    {
        RpcStatus { code: GrpcCode::Internal, message: String::from_str(message) }
    }
}

/// The code for each gRPC status name an error can carry; `Unknown` for
/// any other name.
pub open spec fn spec_code_for_status_name(name: Seq<char>) -> GrpcCode {
    if name == "NOT_FOUND"@ {
        GrpcCode::NotFound
    } else if name == "FAILED_PRECONDITION"@ {
        GrpcCode::FailedPrecondition
    } else if name == "INVALID_ARGUMENT"@ {
        GrpcCode::InvalidArgument
    } else if name == "INTERNAL"@ {
        GrpcCode::Internal
    } else if name == "UNAUTHENTICATED"@ {
        GrpcCode::Unauthenticated
    } else if name == "PERMISSION_DENIED"@ {
        GrpcCode::PermissionDenied
    } else if name == "UNIMPLEMENTED"@ {
        GrpcCode::Unimplemented
    } else {
        GrpcCode::Unknown
    }
}

/// The status name a client reads each code as: the six codes A2A errors
/// map to by their own names, every other code as `INTERNAL`.
pub open spec fn spec_status_name_for_code(code: GrpcCode) -> Seq<char> {
    match code {
        GrpcCode::NotFound => "NOT_FOUND"@,
        GrpcCode::FailedPrecondition => "FAILED_PRECONDITION"@,
        GrpcCode::InvalidArgument => "INVALID_ARGUMENT"@,
        GrpcCode::Unauthenticated => "UNAUTHENTICATED"@,
        GrpcCode::PermissionDenied => "PERMISSION_DENIED"@,
        GrpcCode::Unimplemented => "UNIMPLEMENTED"@,
        _ => "INTERNAL"@,
    }
}

/// The gRPC status a server answers an [`A2aError`] with: the code named by
/// the error's canonical status name, and its standard wire message.
pub fn a2a_error_to_status(err: A2aError) -> (r: RpcStatus)
    ensures
        r.code == spec_code_for_status_name(spec_grpc_status_name(err)),
        r.message@ == spec_standard_message(err),
{
    let name = err.grpc_status_name();
    let code = if str_eq(name, "NOT_FOUND") {
        GrpcCode::NotFound
    } else if str_eq(name, "FAILED_PRECONDITION") {
        GrpcCode::FailedPrecondition
    } else if str_eq(name, "INVALID_ARGUMENT") {
        GrpcCode::InvalidArgument
    } else if str_eq(name, "INTERNAL") {
        GrpcCode::Internal
    } else if str_eq(name, "UNAUTHENTICATED") {
        GrpcCode::Unauthenticated
    } else if str_eq(name, "PERMISSION_DENIED") {
        GrpcCode::PermissionDenied
    } else if str_eq(name, "UNIMPLEMENTED") {
        GrpcCode::Unimplemented
    } else {
        GrpcCode::Unknown
    };
    RpcStatus { code, message: err.standard_message() }
}

/// One of the six codes that name an A2A error category by their own
/// name: `NOT_FOUND`, `FAILED_PRECONDITION`, `INVALID_ARGUMENT`,
/// `UNAUTHENTICATED`, `PERMISSION_DENIED` and `UNIMPLEMENTED`.
pub open spec fn names_a2a_category(code: GrpcCode) -> bool {
    ||| code == GrpcCode::NotFound
    ||| code == GrpcCode::FailedPrecondition
    ||| code == GrpcCode::InvalidArgument
    ||| code == GrpcCode::Unauthenticated
    ||| code == GrpcCode::PermissionDenied
    ||| code == GrpcCode::Unimplemented
}

/// The status name a client reads a code as.
pub fn status_name_for_code(code: GrpcCode) -> (r: &'static str)
    ensures
        r@ == spec_status_name_for_code(code),
        !names_a2a_category(code) ==> r@ == "INTERNAL"@,
        r@ == "NOT_FOUND"@ <==> code == GrpcCode::NotFound,
{
    proof {
        lemma_status_name_literals();
    }
    match code {
        GrpcCode::NotFound => "NOT_FOUND",
        GrpcCode::FailedPrecondition => "FAILED_PRECONDITION",
        GrpcCode::InvalidArgument => "INVALID_ARGUMENT",
        GrpcCode::Unauthenticated => "UNAUTHENTICATED",
        GrpcCode::PermissionDenied => "PERMISSION_DENIED",
        GrpcCode::Unimplemented => "UNIMPLEMENTED",
        _ => "INTERNAL",
    }
}

/// Every error is answered with a specific status code, never `UNKNOWN`
/// or `OK`, and a client reading that code recovers the error's own
/// canonical status name.
pub proof fn lemma_status_code_round_trip(e: A2aError)
    ensures
        spec_code_for_status_name(spec_grpc_status_name(e)) != GrpcCode::Unknown,
        spec_code_for_status_name(spec_grpc_status_name(e)) != GrpcCode::Success,
        spec_status_name_for_code(spec_code_for_status_name(spec_grpc_status_name(e)))
            == spec_grpc_status_name(e),
{
    lemma_status_name_literals();
}

/// A client reads every code outside the six A2A categories as
/// `INTERNAL`, and only `NOT_FOUND` as `NOT_FOUND`; each of the six reads
/// as its own name.
pub proof fn lemma_status_names_of_codes(code: GrpcCode)
    ensures
        !names_a2a_category(code) ==> spec_status_name_for_code(code) == "INTERNAL"@,
        spec_status_name_for_code(code) == "NOT_FOUND"@ <==> code == GrpcCode::NotFound,
        code == GrpcCode::FailedPrecondition ==> spec_status_name_for_code(code) == "FAILED_PRECONDITION"@,
        code == GrpcCode::InvalidArgument ==> spec_status_name_for_code(code) == "INVALID_ARGUMENT"@,
        code == GrpcCode::Unauthenticated ==> spec_status_name_for_code(code) == "UNAUTHENTICATED"@,
        code == GrpcCode::PermissionDenied ==> spec_status_name_for_code(code) == "PERMISSION_DENIED"@,
        code == GrpcCode::Unimplemented ==> spec_status_name_for_code(code) == "UNIMPLEMENTED"@,
{
    lemma_status_name_literals();
}

} // verus!
