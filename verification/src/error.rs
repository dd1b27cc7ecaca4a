//! The A2A error model and its mapping onto the JSON-RPC, HTTP and gRPC
//! protocol bindings.
use vstd::prelude::*;

use crate::text::str_eq;

verus! {

/// A protocol-level A2A error.
///
/// The first nine variants are the A2A-specific error types; the rest cover
/// the generic error categories and the standard JSON-RPC 2.0 errors.
#[derive(Debug, Clone)]
pub enum A2aError {
    /// The task id does not correspond to an existing or accessible task.
    TaskNotFound(String),
    /// The task is already in a terminal state.
    TaskNotCancelable(String),
    /// The agent does not support push notifications.
    PushNotificationNotSupported,
    /// The requested operation, or some aspect of it, is not supported.
    UnsupportedOperation(String),
    /// A media type in the request is not supported.
    ContentTypeNotSupported(String),
    /// An agent produced a response that does not conform to the protocol.
    InvalidAgentResponse(String),
    /// The agent declares an extended card but has none configured.
    ExtendedAgentCardNotConfigured,
    /// The server requires an extension the client did not declare.
    ExtensionSupportRequired(String),
    /// The requested protocol version is not supported.
    VersionNotSupported(String),
    /// Authentication credentials were missing or invalid.
    Unauthenticated(String),
    /// The authenticated caller lacks permission.
    PermissionDenied(String),
    /// The request could not be parsed as valid JSON.
    ParseError,
    /// The request was not a valid JSON-RPC / A2A request object.
    InvalidRequest(String),
    /// The requested method does not exist or is not available.
    MethodNotFound(String),
    /// Request parameters failed validation.
    InvalidParams(String),
    /// An unexpected internal error occurred.
    Internal(String),
}

/// The JSON-RPC 2.0 numeric error code of each variant.
pub open spec fn spec_json_rpc_code(e: A2aError) -> int {
    match e {
        A2aError::TaskNotFound(_) => -32001,
        A2aError::TaskNotCancelable(_) => -32002,
        A2aError::PushNotificationNotSupported => -32003,
        A2aError::UnsupportedOperation(_) => -32004,
        A2aError::ContentTypeNotSupported(_) => -32005,
        A2aError::InvalidAgentResponse(_) => -32006,
        A2aError::ExtendedAgentCardNotConfigured => -32007,
        A2aError::ExtensionSupportRequired(_) => -32008,
        A2aError::VersionNotSupported(_) => -32009,
        A2aError::Unauthenticated(_) => -32010,
        A2aError::PermissionDenied(_) => -32011,
        A2aError::ParseError => -32700,
        A2aError::InvalidRequest(_) => -32600,
        A2aError::MethodNotFound(_) => -32601,
        A2aError::InvalidParams(_) => -32602,
        A2aError::Internal(_) => -32603,
    }
}

/// The HTTP status code of each variant.
pub open spec fn spec_http_status(e: A2aError) -> int {
    match e {
        A2aError::TaskNotFound(_) => 404,
        A2aError::InvalidAgentResponse(_) => 500,
        A2aError::Unauthenticated(_) => 401,
        A2aError::PermissionDenied(_) => 403,
        A2aError::MethodNotFound(_) => 404,
        A2aError::Internal(_) => 500,
        _ => 400,
    }
}

/// The `ErrorInfo.reason` of each A2A-specific variant; `None` for the
/// generic ones.
pub open spec fn spec_reason(e: A2aError) -> Option<Seq<char>> {
    match e {
        A2aError::TaskNotFound(_) => Some("TASK_NOT_FOUND"@),
        A2aError::TaskNotCancelable(_) => Some("TASK_NOT_CANCELABLE"@),
        A2aError::PushNotificationNotSupported => Some("PUSH_NOTIFICATION_NOT_SUPPORTED"@),
        A2aError::UnsupportedOperation(_) => Some("UNSUPPORTED_OPERATION"@),
        A2aError::ContentTypeNotSupported(_) => Some("CONTENT_TYPE_NOT_SUPPORTED"@),
        A2aError::InvalidAgentResponse(_) => Some("INVALID_AGENT_RESPONSE"@),
        A2aError::ExtendedAgentCardNotConfigured => Some("EXTENDED_AGENT_CARD_NOT_CONFIGURED"@),
        A2aError::ExtensionSupportRequired(_) => Some("EXTENSION_SUPPORT_REQUIRED"@),
        A2aError::VersionNotSupported(_) => Some("VERSION_NOT_SUPPORTED"@),
        _ => None,
    }
}

/// The error rebuilt from an `ErrorInfo.reason` and a message; an
/// unrecognized reason gives `Internal` carrying the message.
pub open spec fn spec_from_reason(reason: Seq<char>, message: String) -> A2aError {
    if reason == "TASK_NOT_FOUND"@ {
        A2aError::TaskNotFound(message)
    } else if reason == "TASK_NOT_CANCELABLE"@ {
        A2aError::TaskNotCancelable(message)
    } else if reason == "PUSH_NOTIFICATION_NOT_SUPPORTED"@ {
        A2aError::PushNotificationNotSupported
    } else if reason == "UNSUPPORTED_OPERATION"@ {
        A2aError::UnsupportedOperation(message)
    } else if reason == "CONTENT_TYPE_NOT_SUPPORTED"@ {
        A2aError::ContentTypeNotSupported(message)
    } else if reason == "INVALID_AGENT_RESPONSE"@ {
        A2aError::InvalidAgentResponse(message)
    } else if reason == "EXTENDED_AGENT_CARD_NOT_CONFIGURED"@ {
        A2aError::ExtendedAgentCardNotConfigured
    } else if reason == "EXTENSION_SUPPORT_REQUIRED"@ {
        A2aError::ExtensionSupportRequired(message)
    } else if reason == "VERSION_NOT_SUPPORTED"@ {
        A2aError::VersionNotSupported(message)
    } else {
        A2aError::Internal(message)
    }
}

/// The error rebuilt from a gRPC status code name and a message: the
/// generic variant of each category, `Internal` for any other name.
pub open spec fn spec_from_grpc_status_name(name: Seq<char>, message: String) -> A2aError {
    if name == "NOT_FOUND"@ {
        A2aError::TaskNotFound(message)
    } else if name == "FAILED_PRECONDITION"@ {
        A2aError::UnsupportedOperation(message)
    } else if name == "INVALID_ARGUMENT"@ {
        A2aError::InvalidParams(message)
    } else if name == "UNAUTHENTICATED"@ {
        A2aError::Unauthenticated(message)
    } else if name == "PERMISSION_DENIED"@ {
        A2aError::PermissionDenied(message)
    } else if name == "UNIMPLEMENTED"@ {
        A2aError::MethodNotFound(message)
    } else {
        A2aError::Internal(message)
    }
}

/// The canonical gRPC status code name of each variant.
///
/// `FAILED_PRECONDITION` covers six A2A errors: a task that cannot be
/// canceled, push notifications not supported, an unsupported operation,
/// an extended card not configured, a required extension, and an
/// unsupported version.
pub open spec fn spec_grpc_status_name(e: A2aError) -> Seq<char> {
    match e {
        A2aError::TaskNotFound(_) => "NOT_FOUND"@,
        A2aError::TaskNotCancelable(_) => "FAILED_PRECONDITION"@,
        A2aError::PushNotificationNotSupported => "FAILED_PRECONDITION"@,
        A2aError::UnsupportedOperation(_) => "FAILED_PRECONDITION"@,
        A2aError::ContentTypeNotSupported(_) => "INVALID_ARGUMENT"@,
        A2aError::InvalidAgentResponse(_) => "INTERNAL"@,
        A2aError::ExtendedAgentCardNotConfigured => "FAILED_PRECONDITION"@,
        A2aError::ExtensionSupportRequired(_) => "FAILED_PRECONDITION"@,
        A2aError::VersionNotSupported(_) => "FAILED_PRECONDITION"@,
        A2aError::Unauthenticated(_) => "UNAUTHENTICATED"@,
        A2aError::PermissionDenied(_) => "PERMISSION_DENIED"@,
        A2aError::ParseError => "INVALID_ARGUMENT"@,
        A2aError::InvalidRequest(_) => "INVALID_ARGUMENT"@,
        A2aError::MethodNotFound(_) => "UNIMPLEMENTED"@,
        A2aError::InvalidParams(_) => "INVALID_ARGUMENT"@,
        A2aError::Internal(_) => "INTERNAL"@,
    }
}

/// The human-readable sentence describing each variant.
pub open spec fn spec_display(e: A2aError) -> Seq<char> {
    match e {
        A2aError::TaskNotFound(d) => "task not found: "@ + d@,
        A2aError::TaskNotCancelable(d) => "task not cancelable: "@ + d@,
        A2aError::PushNotificationNotSupported => "push notifications are not supported by this agent"@,
        A2aError::UnsupportedOperation(d) => "unsupported operation: "@ + d@,
        A2aError::ContentTypeNotSupported(d) => "content type not supported: "@ + d@,
        A2aError::InvalidAgentResponse(d) => "invalid agent response: "@ + d@,
        A2aError::ExtendedAgentCardNotConfigured => "extended agent card not configured"@,
        A2aError::ExtensionSupportRequired(d) => "extension support required: "@ + d@,
        A2aError::VersionNotSupported(d) => "A2A protocol version not supported: "@ + d@,
        A2aError::Unauthenticated(d) => "authentication required: "@ + d@,
        A2aError::PermissionDenied(d) => "permission denied: "@ + d@,
        A2aError::ParseError => "invalid JSON payload"@,
        A2aError::InvalidRequest(d) => "invalid request: "@ + d@,
        A2aError::MethodNotFound(d) => "method not found: "@ + d@,
        A2aError::InvalidParams(d) => "invalid parameters: "@ + d@,
        A2aError::Internal(d) => "internal error: "@ + d@,
    }
}

/// The message sent over the wire: the fixed text of the standard JSON-RPC
/// errors, the variant's own detail for those that carry one, and the
/// descriptive sentence for the two that carry none.
pub open spec fn spec_standard_message(e: A2aError) -> Seq<char> {
    match e {
        A2aError::ParseError => "Invalid JSON payload"@,
        A2aError::InvalidRequest(_) => "Request payload validation error"@,
        A2aError::MethodNotFound(_) => "Method not found"@,
        A2aError::InvalidParams(_) => "Invalid parameters"@,
        A2aError::Internal(_) => "Internal error"@,
        A2aError::TaskNotFound(d) => d@,
        A2aError::TaskNotCancelable(d) => d@,
        A2aError::UnsupportedOperation(d) => d@,
        A2aError::ContentTypeNotSupported(d) => d@,
        A2aError::InvalidAgentResponse(d) => d@,
        A2aError::ExtensionSupportRequired(d) => d@,
        A2aError::VersionNotSupported(d) => d@,
        A2aError::Unauthenticated(d) => d@,
        A2aError::PermissionDenied(d) => d@,
        A2aError::PushNotificationNotSupported => spec_display(e),
        A2aError::ExtendedAgentCardNotConfigured => spec_display(e),
    }
}

/// The detail string a variant carries, if it carries one.
pub open spec fn spec_detail(e: A2aError) -> Option<String> {
    match e {
        A2aError::TaskNotFound(d) => Some(d),
        A2aError::TaskNotCancelable(d) => Some(d),
        A2aError::UnsupportedOperation(d) => Some(d),
        A2aError::ContentTypeNotSupported(d) => Some(d),
        A2aError::InvalidAgentResponse(d) => Some(d),
        A2aError::ExtensionSupportRequired(d) => Some(d),
        A2aError::VersionNotSupported(d) => Some(d),
        A2aError::Unauthenticated(d) => Some(d),
        A2aError::PermissionDenied(d) => Some(d),
        A2aError::InvalidRequest(d) => Some(d),
        A2aError::MethodNotFound(d) => Some(d),
        A2aError::InvalidParams(d) => Some(d),
        A2aError::Internal(d) => Some(d),
        _ => None,
    }
}

fn prefixed(prefix: &str, detail: &String) -> (r: String)
    ensures
        r@ == prefix@ + detail@,
{
    let mut s = String::from_str(prefix);
    s.append(detail.as_str());
    s
}

impl A2aError {
    /// The JSON-RPC 2.0 numeric error code for this error.
    pub fn json_rpc_code(&self) -> (r: i64)
        ensures
            r == spec_json_rpc_code(*self),
    {
        match self {
            A2aError::TaskNotFound(_) => -32001,
            A2aError::TaskNotCancelable(_) => -32002,
            A2aError::PushNotificationNotSupported => -32003,
            A2aError::UnsupportedOperation(_) => -32004,
            A2aError::ContentTypeNotSupported(_) => -32005,
            A2aError::InvalidAgentResponse(_) => -32006,
            A2aError::ExtendedAgentCardNotConfigured => -32007,
            A2aError::ExtensionSupportRequired(_) => -32008,
            A2aError::VersionNotSupported(_) => -32009,
            A2aError::Unauthenticated(_) => -32010,
            A2aError::PermissionDenied(_) => -32011,
            A2aError::ParseError => -32700,
            A2aError::InvalidRequest(_) => -32600,
            A2aError::MethodNotFound(_) => -32601,
            A2aError::InvalidParams(_) => -32602,
            A2aError::Internal(_) => -32603,
        }
    }

    /// The HTTP status code this error maps to.
    pub fn http_status(&self) -> (r: u16)
        ensures
            r == spec_http_status(*self),
    {
        match self {
            A2aError::TaskNotFound(_) => 404,
            A2aError::TaskNotCancelable(_) => 400,
            A2aError::PushNotificationNotSupported => 400,
            A2aError::UnsupportedOperation(_) => 400,
            A2aError::ContentTypeNotSupported(_) => 400,
            A2aError::InvalidAgentResponse(_) => 500,
            A2aError::ExtendedAgentCardNotConfigured => 400,
            A2aError::ExtensionSupportRequired(_) => 400,
            A2aError::VersionNotSupported(_) => 400,
            A2aError::Unauthenticated(_) => 401,
            A2aError::PermissionDenied(_) => 403,
            A2aError::ParseError => 400,
            A2aError::InvalidRequest(_) => 400,
            A2aError::MethodNotFound(_) => 404,
            A2aError::InvalidParams(_) => 400,
            A2aError::Internal(_) => 500,
        }
    }

    /// The `google.rpc.ErrorInfo.reason` value for this error: the A2A
    /// error type name in `UPPER_SNAKE_CASE`; `None` for the generic
    /// variants.
    pub fn reason(&self) -> (r: Option<&'static str>)
        ensures
            match r {
                Some(s) => spec_reason(*self) == Some(s@),
                None => spec_reason(*self) is None,
            },
    {
        match self {
            A2aError::TaskNotFound(_) => Some("TASK_NOT_FOUND"),
            A2aError::TaskNotCancelable(_) => Some("TASK_NOT_CANCELABLE"),
            A2aError::PushNotificationNotSupported => Some("PUSH_NOTIFICATION_NOT_SUPPORTED"),
            A2aError::UnsupportedOperation(_) => Some("UNSUPPORTED_OPERATION"),
            A2aError::ContentTypeNotSupported(_) => Some("CONTENT_TYPE_NOT_SUPPORTED"),
            A2aError::InvalidAgentResponse(_) => Some("INVALID_AGENT_RESPONSE"),
            A2aError::ExtendedAgentCardNotConfigured => Some("EXTENDED_AGENT_CARD_NOT_CONFIGURED"),
            A2aError::ExtensionSupportRequired(_) => Some("EXTENSION_SUPPORT_REQUIRED"),
            A2aError::VersionNotSupported(_) => Some("VERSION_NOT_SUPPORTED"),
            _ => None,
        }
    }

    /// Reconstructs an error from a `google.rpc.ErrorInfo.reason` and the
    /// accompanying message. An unrecognized reason becomes `Internal`
    /// carrying the message.
    pub fn from_reason(reason: &str, message: String) -> (r: A2aError)
        ensures
            r == spec_from_reason(reason@, message),
    {
        if str_eq(reason, "TASK_NOT_FOUND") {
            A2aError::TaskNotFound(message)
        } else if str_eq(reason, "TASK_NOT_CANCELABLE") {
            A2aError::TaskNotCancelable(message)
        } else if str_eq(reason, "PUSH_NOTIFICATION_NOT_SUPPORTED") {
            A2aError::PushNotificationNotSupported
        } else if str_eq(reason, "UNSUPPORTED_OPERATION") {
            A2aError::UnsupportedOperation(message)
        } else if str_eq(reason, "CONTENT_TYPE_NOT_SUPPORTED") {
            A2aError::ContentTypeNotSupported(message)
        } else if str_eq(reason, "INVALID_AGENT_RESPONSE") {
            A2aError::InvalidAgentResponse(message)
        } else if str_eq(reason, "EXTENDED_AGENT_CARD_NOT_CONFIGURED") {
            A2aError::ExtendedAgentCardNotConfigured
        } else if str_eq(reason, "EXTENSION_SUPPORT_REQUIRED") {
            A2aError::ExtensionSupportRequired(message)
        } else if str_eq(reason, "VERSION_NOT_SUPPORTED") {
            A2aError::VersionNotSupported(message)
        } else {
            A2aError::Internal(message)
        }
    }

    /// Reconstructs an error from a gRPC status code name and message,
    /// picking the generic variant of each category.
    pub fn from_grpc_status_name(name: &str, message: String) -> (r: A2aError)
        ensures
            r == spec_from_grpc_status_name(name@, message),
    {
        if str_eq(name, "NOT_FOUND") {
            A2aError::TaskNotFound(message)
        } else if str_eq(name, "FAILED_PRECONDITION") {
            A2aError::UnsupportedOperation(message)
        } else if str_eq(name, "INVALID_ARGUMENT") {
            A2aError::InvalidParams(message)
        } else if str_eq(name, "UNAUTHENTICATED") {
            A2aError::Unauthenticated(message)
        } else if str_eq(name, "PERMISSION_DENIED") {
            A2aError::PermissionDenied(message)
        } else if str_eq(name, "UNIMPLEMENTED") {
            A2aError::MethodNotFound(message)
        } else {
            A2aError::Internal(message)
        }
    }

    /// The canonical gRPC status code name for this error.
    pub fn grpc_status_name(&self) -> (r: &'static str)
        ensures
            r@ == spec_grpc_status_name(*self),
    {
        match self {
            A2aError::TaskNotFound(_) => "NOT_FOUND",
            A2aError::TaskNotCancelable(_) => "FAILED_PRECONDITION",
            A2aError::PushNotificationNotSupported => "FAILED_PRECONDITION",
            A2aError::UnsupportedOperation(_) => "FAILED_PRECONDITION",
            A2aError::ContentTypeNotSupported(_) => "INVALID_ARGUMENT",
            A2aError::InvalidAgentResponse(_) => "INTERNAL",
            A2aError::ExtendedAgentCardNotConfigured => "FAILED_PRECONDITION",
            A2aError::ExtensionSupportRequired(_) => "FAILED_PRECONDITION",
            A2aError::VersionNotSupported(_) => "FAILED_PRECONDITION",
            A2aError::Unauthenticated(_) => "UNAUTHENTICATED",
            A2aError::PermissionDenied(_) => "PERMISSION_DENIED",
            A2aError::ParseError => "INVALID_ARGUMENT",
            A2aError::InvalidRequest(_) => "INVALID_ARGUMENT",
            A2aError::MethodNotFound(_) => "UNIMPLEMENTED",
            A2aError::InvalidParams(_) => "INVALID_ARGUMENT",
            A2aError::Internal(_) => "INTERNAL",
        }
    }

    /// The descriptive sentence for this error (what its `Display` shows).
    pub fn to_string(&self) -> (r: String)
        ensures
            r@ == spec_display(*self),
    {
        match self {
            A2aError::TaskNotFound(d) => prefixed("task not found: ", d),
            A2aError::TaskNotCancelable(d) => prefixed("task not cancelable: ", d),
            A2aError::PushNotificationNotSupported => String::from_str(
                "push notifications are not supported by this agent",
            ),
            A2aError::UnsupportedOperation(d) => prefixed("unsupported operation: ", d),
            A2aError::ContentTypeNotSupported(d) => prefixed("content type not supported: ", d),
            A2aError::InvalidAgentResponse(d) => prefixed("invalid agent response: ", d),
            A2aError::ExtendedAgentCardNotConfigured => String::from_str(
                "extended agent card not configured",
            ),
            A2aError::ExtensionSupportRequired(d) => prefixed("extension support required: ", d),
            A2aError::VersionNotSupported(d) => prefixed("A2A protocol version not supported: ", d),
            A2aError::Unauthenticated(d) => prefixed("authentication required: ", d),
            A2aError::PermissionDenied(d) => prefixed("permission denied: ", d),
            A2aError::ParseError => String::from_str("invalid JSON payload"),
            A2aError::InvalidRequest(d) => prefixed("invalid request: ", d),
            A2aError::MethodNotFound(d) => prefixed("method not found: ", d),
            A2aError::InvalidParams(d) => prefixed("invalid parameters: ", d),
            A2aError::Internal(d) => prefixed("internal error: ", d),
        }
    }

    /// The message sent over the wire in the JSON-RPC/HTTP error object.
    pub fn standard_message(&self) -> (r: String)
        ensures
            r@ == spec_standard_message(*self),
    {
        match self {
            A2aError::ParseError => String::from_str("Invalid JSON payload"),
            A2aError::InvalidRequest(_) => String::from_str("Request payload validation error"),
            A2aError::MethodNotFound(_) => String::from_str("Method not found"),
            A2aError::InvalidParams(_) => String::from_str("Invalid parameters"),
            A2aError::Internal(_) => String::from_str("Internal error"),
            A2aError::TaskNotFound(detail) => detail.clone(),
            A2aError::TaskNotCancelable(detail) => detail.clone(),
            A2aError::UnsupportedOperation(detail) => detail.clone(),
            A2aError::ContentTypeNotSupported(detail) => detail.clone(),
            A2aError::InvalidAgentResponse(detail) => detail.clone(),
            A2aError::ExtensionSupportRequired(detail) => detail.clone(),
            A2aError::VersionNotSupported(detail) => detail.clone(),
            A2aError::Unauthenticated(detail) => detail.clone(),
            A2aError::PermissionDenied(detail) => detail.clone(),
            A2aError::PushNotificationNotSupported => self.to_string(),
            A2aError::ExtendedAgentCardNotConfigured => self.to_string(),
        }
    }
}

/// The error a JSON-RPC error object stands for, rebuilt from its code and
/// message: the variant with that code, carrying the message; `Internal`
/// carrying the message for a code this library does not know.
pub open spec fn spec_jsonrpc_error_to_a2a(code: int, message: String) -> A2aError {
    if code == -32001 {
        A2aError::TaskNotFound(message)
    } else if code == -32002 {
        A2aError::TaskNotCancelable(message)
    } else if code == -32003 {
        A2aError::PushNotificationNotSupported
    } else if code == -32004 {
        A2aError::UnsupportedOperation(message)
    } else if code == -32005 {
        A2aError::ContentTypeNotSupported(message)
    } else if code == -32006 {
        A2aError::InvalidAgentResponse(message)
    } else if code == -32007 {
        A2aError::ExtendedAgentCardNotConfigured
    } else if code == -32008 {
        A2aError::ExtensionSupportRequired(message)
    } else if code == -32009 {
        A2aError::VersionNotSupported(message)
    } else if code == -32010 {
        A2aError::Unauthenticated(message)
    } else if code == -32011 {
        A2aError::PermissionDenied(message)
    } else if code == -32700 {
        A2aError::ParseError
    } else if code == -32600 {
        A2aError::InvalidRequest(message)
    } else if code == -32601 {
        A2aError::MethodNotFound(message)
    } else if code == -32602 {
        A2aError::InvalidParams(message)
    } else {
        A2aError::Internal(message)
    }
}

/// Reconstructs the error a JSON-RPC error object reports from its code and
/// message, for a client reading a JSON-RPC error response. A code this
/// library does not know becomes `Internal` carrying the remote's message.
pub fn jsonrpc_error_to_a2a(code: i64, message: String) -> (r: A2aError)
    ensures
        r == spec_jsonrpc_error_to_a2a(code as int, message),
{
    if code == -32001 {
        A2aError::TaskNotFound(message)
    } else if code == -32002 {
        A2aError::TaskNotCancelable(message)
    } else if code == -32003 {
        A2aError::PushNotificationNotSupported
    } else if code == -32004 {
        A2aError::UnsupportedOperation(message)
    } else if code == -32005 {
        A2aError::ContentTypeNotSupported(message)
    } else if code == -32006 {
        A2aError::InvalidAgentResponse(message)
    } else if code == -32007 {
        A2aError::ExtendedAgentCardNotConfigured
    } else if code == -32008 {
        A2aError::ExtensionSupportRequired(message)
    } else if code == -32009 {
        A2aError::VersionNotSupported(message)
    } else if code == -32010 {
        A2aError::Unauthenticated(message)
    } else if code == -32011 {
        A2aError::PermissionDenied(message)
    } else if code == -32700 {
        A2aError::ParseError
    } else if code == -32600 {
        A2aError::InvalidRequest(message)
    } else if code == -32601 {
        A2aError::MethodNotFound(message)
    } else if code == -32602 {
        A2aError::InvalidParams(message)
    } else {
        A2aError::Internal(message)
    }
}

/// The position of a variant in the enum's declaration order.
pub open spec fn spec_variant(e: A2aError) -> int {
    match e {
        A2aError::TaskNotFound(_) => 0,
        A2aError::TaskNotCancelable(_) => 1,
        A2aError::PushNotificationNotSupported => 2,
        A2aError::UnsupportedOperation(_) => 3,
        A2aError::ContentTypeNotSupported(_) => 4,
        A2aError::InvalidAgentResponse(_) => 5,
        A2aError::ExtendedAgentCardNotConfigured => 6,
        A2aError::ExtensionSupportRequired(_) => 7,
        A2aError::VersionNotSupported(_) => 8,
        A2aError::Unauthenticated(_) => 9,
        A2aError::PermissionDenied(_) => 10,
        A2aError::ParseError => 11,
        A2aError::InvalidRequest(_) => 12,
        A2aError::MethodNotFound(_) => 13,
        A2aError::InvalidParams(_) => 14,
        A2aError::Internal(_) => 15,
    }
}

/// The text of an optional string.
pub open spec fn opt_string_view(s: Option<String>) -> Option<Seq<char>> {
    match s {
        Some(x) => Some(x@),
        None => None,
    }
}

/// Two errors are the same variant carrying the same detail text.
pub open spec fn same_error(a: A2aError, b: A2aError) -> bool {
    &&& spec_variant(a) == spec_variant(b)
    &&& opt_string_view(spec_detail(a)) == opt_string_view(spec_detail(b))
}

/// Length and first character of each `ErrorInfo.reason` literal.
proof fn lemma_reason_literals()
    ensures
        "TASK_NOT_FOUND"@.len() == 14,
        "TASK_NOT_FOUND"@[0] == 'T',
        "TASK_NOT_CANCELABLE"@.len() == 19,
        "TASK_NOT_CANCELABLE"@[0] == 'T',
        "PUSH_NOTIFICATION_NOT_SUPPORTED"@.len() == 31,
        "PUSH_NOTIFICATION_NOT_SUPPORTED"@[0] == 'P',
        "UNSUPPORTED_OPERATION"@.len() == 21,
        "UNSUPPORTED_OPERATION"@[0] == 'U',
        "CONTENT_TYPE_NOT_SUPPORTED"@.len() == 26,
        "CONTENT_TYPE_NOT_SUPPORTED"@[0] == 'C',
        "INVALID_AGENT_RESPONSE"@.len() == 22,
        "INVALID_AGENT_RESPONSE"@[0] == 'I',
        "EXTENDED_AGENT_CARD_NOT_CONFIGURED"@.len() == 34,
        "EXTENDED_AGENT_CARD_NOT_CONFIGURED"@[0] == 'E',
        "EXTENSION_SUPPORT_REQUIRED"@.len() == 26,
        "EXTENSION_SUPPORT_REQUIRED"@[0] == 'E',
        "VERSION_NOT_SUPPORTED"@.len() == 21,
        "VERSION_NOT_SUPPORTED"@[0] == 'V',
{
    reveal_strlit("TASK_NOT_FOUND");
    reveal_strlit("TASK_NOT_CANCELABLE");
    reveal_strlit("PUSH_NOTIFICATION_NOT_SUPPORTED");
    reveal_strlit("UNSUPPORTED_OPERATION");
    reveal_strlit("CONTENT_TYPE_NOT_SUPPORTED");
    reveal_strlit("INVALID_AGENT_RESPONSE");
    reveal_strlit("EXTENDED_AGENT_CARD_NOT_CONFIGURED");
    reveal_strlit("EXTENSION_SUPPORT_REQUIRED");
    reveal_strlit("VERSION_NOT_SUPPORTED");
}

/// Length and first character of each gRPC status name literal.
pub(crate) proof fn lemma_status_name_literals()
    ensures
        "NOT_FOUND"@.len() == 9,
        "NOT_FOUND"@[0] == 'N',
        "FAILED_PRECONDITION"@.len() == 19,
        "FAILED_PRECONDITION"@[0] == 'F',
        "INVALID_ARGUMENT"@.len() == 16,
        "INVALID_ARGUMENT"@[0] == 'I',
        "UNAUTHENTICATED"@.len() == 15,
        "UNAUTHENTICATED"@[0] == 'U',
        "PERMISSION_DENIED"@.len() == 17,
        "PERMISSION_DENIED"@[0] == 'P',
        "UNIMPLEMENTED"@.len() == 13,
        "UNIMPLEMENTED"@[0] == 'U',
        "INTERNAL"@.len() == 8,
        "INTERNAL"@[0] == 'I',
{
    reveal_strlit("NOT_FOUND");
    reveal_strlit("FAILED_PRECONDITION");
    reveal_strlit("INVALID_ARGUMENT");
    reveal_strlit("UNAUTHENTICATED");
    reveal_strlit("PERMISSION_DENIED");
    reveal_strlit("UNIMPLEMENTED");
    reveal_strlit("INTERNAL");
}

/// Every A2A-specific error survives a binding that carries it as an
/// `ErrorInfo.reason` plus its wire message: rebuilding it from the two
/// gives back the same variant with the same detail.
pub proof fn lemma_reason_round_trip(e: A2aError, message: String)
    requires
        spec_reason(e) is Some,
        message@ == spec_standard_message(e),
    ensures
        same_error(spec_from_reason(spec_reason(e)->0, message), e),
{
    lemma_reason_literals();
}

/// Rebuilding an error from its own reason never invents an unrelated
/// variant: an error has a reason exactly when it is one of the nine
/// A2A-specific errors, whose JSON-RPC codes are `-32009..=-32001`.
pub proof fn lemma_reason_iff_a2a_specific_code(e: A2aError)
    ensures
        spec_reason(e) is Some <==> (-32009 <= spec_json_rpc_code(e) <= -32001),
{
}

/// The JSON-RPC codes tell the variants apart, and each lies in the A2A
/// reserved range `-32099..=-32001` or is one of the five standard
/// JSON-RPC codes.
pub proof fn lemma_json_rpc_code_injective(a: A2aError, b: A2aError)
    ensures
        spec_json_rpc_code(a) == spec_json_rpc_code(b) ==> spec_variant(a) == spec_variant(b),
        (-32099 <= spec_json_rpc_code(a) <= -32001) || spec_json_rpc_code(a) == -32700 || (
        -32603 <= spec_json_rpc_code(a) <= -32600),
{
}

/// Rebuilding an error from its gRPC status name keeps that status name:
/// the category survives even where the variant cannot.
pub proof fn lemma_grpc_status_name_preserved(e: A2aError, message: String)
    ensures
        spec_grpc_status_name(spec_from_grpc_status_name(spec_grpc_status_name(e), message))
            == spec_grpc_status_name(e),
{
    lemma_status_name_literals();
}

/// The variant chosen for each gRPC status category is rebuilt exactly
/// from its own status name and detail.
pub proof fn lemma_grpc_generic_variant_round_trip(e: A2aError, message: String)
    requires
        e is TaskNotFound || e is UnsupportedOperation || e is InvalidParams || e is Unauthenticated
            || e is PermissionDenied || e is MethodNotFound || e is Internal,
        opt_string_view(spec_detail(e)) == Some(message@),
    ensures
        same_error(spec_from_grpc_status_name(spec_grpc_status_name(e), message), e),
{
    lemma_status_name_literals();
}

/// A JSON-RPC client rebuilds, from the code and wire message of any error
/// a server sent, an error of the same variant; and the very error (same
/// detail too) for every variant whose wire message is its detail or that
/// carries no detail, i.e. all but the four standard JSON-RPC errors that
/// carry a detail behind a fixed message.
pub proof fn lemma_jsonrpc_error_round_trip(e: A2aError, message: String)
    requires
        message@ == spec_standard_message(e),
    ensures
        spec_variant(spec_jsonrpc_error_to_a2a(spec_json_rpc_code(e), message)) == spec_variant(e),
        !(e is InvalidRequest || e is MethodNotFound || e is InvalidParams || e is Internal) ==> same_error(
            spec_jsonrpc_error_to_a2a(spec_json_rpc_code(e), message),
            e,
        ),
{
}

/// `FAILED_PRECONDITION` covers exactly six A2A errors, and a client
/// reading that status back gets `UnsupportedOperation` for each of them.
pub proof fn lemma_failed_precondition_errors(e: A2aError, message: String)
    ensures
        spec_grpc_status_name(e) == "FAILED_PRECONDITION"@ <==> (e is TaskNotCancelable
            || e is PushNotificationNotSupported || e is UnsupportedOperation || e is ExtendedAgentCardNotConfigured
            || e is ExtensionSupportRequired || e is VersionNotSupported),
        spec_grpc_status_name(e) == "FAILED_PRECONDITION"@ ==> spec_from_grpc_status_name(
            spec_grpc_status_name(e),
            message,
        ) == A2aError::UnsupportedOperation(message),
{
    lemma_status_name_literals();
}

/// The HTTP and gRPC mappings agree: every error's HTTP status is one of
/// 400, 401, 403, 404 and 500, and follows from its gRPC status name alone
/// (500 for `INTERNAL`, 401 for `UNAUTHENTICATED`, 403 for
/// `PERMISSION_DENIED`, 404 for `NOT_FOUND` and `UNIMPLEMENTED`, 400 for
/// `FAILED_PRECONDITION` and `INVALID_ARGUMENT`).
pub proof fn lemma_http_status_follows_grpc_status(e: A2aError)
    ensures
        spec_http_status(e) == 500 <==> spec_grpc_status_name(e) == "INTERNAL"@,
        spec_http_status(e) == 401 <==> spec_grpc_status_name(e) == "UNAUTHENTICATED"@,
        spec_http_status(e) == 403 <==> spec_grpc_status_name(e) == "PERMISSION_DENIED"@,
        spec_http_status(e) == 404 <==> (spec_grpc_status_name(e) == "NOT_FOUND"@
            || spec_grpc_status_name(e) == "UNIMPLEMENTED"@),
        spec_http_status(e) == 400 <==> (spec_grpc_status_name(e) == "FAILED_PRECONDITION"@
            || spec_grpc_status_name(e) == "INVALID_ARGUMENT"@),
{
    lemma_status_name_literals();
}

} // verus!
