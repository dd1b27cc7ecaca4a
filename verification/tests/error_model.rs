use rusty_a2a::error::{jsonrpc_error_to_a2a, A2aError};
use rusty_a2a::status::{a2a_error_to_status, GrpcCode};

fn s(x: &str) -> String {
    x.to_string()
}

fn all_errors() -> Vec<A2aError> {
    vec![
        A2aError::TaskNotFound(s("t1")),
        A2aError::TaskNotCancelable(s("t2")),
        A2aError::PushNotificationNotSupported,
        A2aError::UnsupportedOperation(s("op")),
        A2aError::ContentTypeNotSupported(s("image/gif")),
        A2aError::InvalidAgentResponse(s("bad")),
        A2aError::ExtendedAgentCardNotConfigured,
        A2aError::ExtensionSupportRequired(s("ext")),
        A2aError::VersionNotSupported(s("9.9")),
        A2aError::Unauthenticated(s("no token")),
        A2aError::PermissionDenied(s("nope")),
        A2aError::ParseError,
        A2aError::InvalidRequest(s("req")),
        A2aError::MethodNotFound(s("m")),
        A2aError::InvalidParams(s("p")),
        A2aError::Internal(s("boom")),
    ]
}

#[test]
fn json_rpc_codes_match_the_table() {
    let codes: Vec<i64> = all_errors().iter().map(|e| e.json_rpc_code()).collect();
    assert_eq!(
        codes,
        vec![
            -32001, -32002, -32003, -32004, -32005, -32006, -32007, -32008, -32009, -32010, -32011,
            -32700, -32600, -32601, -32602, -32603
        ]
    );
}

#[test]
fn json_rpc_codes_are_distinct() {
    let mut codes: Vec<i64> = all_errors().iter().map(|e| e.json_rpc_code()).collect();
    codes.sort();
    codes.dedup();
    assert_eq!(codes.len(), 16);
}

#[test]
fn http_statuses_match_the_table() {
    let statuses: Vec<u16> = all_errors().iter().map(|e| e.http_status()).collect();
    assert_eq!(
        statuses,
        vec![404, 400, 400, 400, 400, 500, 400, 400, 400, 401, 403, 400, 400, 404, 400, 500]
    );
}

#[test]
fn grpc_status_names_match_the_table() {
    let names: Vec<&str> = all_errors().iter().map(|e| e.grpc_status_name()).collect();
    assert_eq!(
        names,
        vec![
            "NOT_FOUND",
            "FAILED_PRECONDITION",
            "FAILED_PRECONDITION",
            "FAILED_PRECONDITION",
            "INVALID_ARGUMENT",
            "INTERNAL",
            "FAILED_PRECONDITION",
            "FAILED_PRECONDITION",
            "FAILED_PRECONDITION",
            "UNAUTHENTICATED",
            "PERMISSION_DENIED",
            "INVALID_ARGUMENT",
            "INVALID_ARGUMENT",
            "UNIMPLEMENTED",
            "INVALID_ARGUMENT",
            "INTERNAL",
        ]
    );
}

#[test]
fn reasons_exist_only_for_a2a_specific_errors() {
    let reasons: Vec<Option<&str>> = all_errors().iter().map(|e| e.reason()).collect();
    assert_eq!(
        reasons,
        vec![
            Some("TASK_NOT_FOUND"),
            Some("TASK_NOT_CANCELABLE"),
            Some("PUSH_NOTIFICATION_NOT_SUPPORTED"),
            Some("UNSUPPORTED_OPERATION"),
            Some("CONTENT_TYPE_NOT_SUPPORTED"),
            Some("INVALID_AGENT_RESPONSE"),
            Some("EXTENDED_AGENT_CARD_NOT_CONFIGURED"),
            Some("EXTENSION_SUPPORT_REQUIRED"),
            Some("VERSION_NOT_SUPPORTED"),
            None,
            None,
            None,
            None,
            None,
            None,
            None,
        ]
    );
}

#[test]
fn from_reason_inverts_reason_with_the_wire_message() {
    for e in all_errors() {
        if let Some(reason) = e.reason() {
            let back = A2aError::from_reason(reason, e.standard_message());
            assert_eq!(format!("{back:?}"), format!("{e:?}"));
        }
    }
}

#[test]
fn an_unrecognized_reason_becomes_internal_with_the_message() {
    let e = A2aError::from_reason("SOMETHING_NEW", s("from the future"));
    assert!(matches!(e, A2aError::Internal(ref m) if m == "from the future"));
}

#[test]
fn from_grpc_status_name_picks_the_generic_variant() {
    assert!(matches!(A2aError::from_grpc_status_name("NOT_FOUND", s("x")), A2aError::TaskNotFound(ref m) if m == "x"));
    assert!(matches!(
        A2aError::from_grpc_status_name("FAILED_PRECONDITION", s("x")),
        A2aError::UnsupportedOperation(_)
    ));
    assert!(matches!(A2aError::from_grpc_status_name("INVALID_ARGUMENT", s("x")), A2aError::InvalidParams(_)));
    assert!(matches!(A2aError::from_grpc_status_name("UNAUTHENTICATED", s("x")), A2aError::Unauthenticated(_)));
    assert!(matches!(A2aError::from_grpc_status_name("PERMISSION_DENIED", s("x")), A2aError::PermissionDenied(_)));
    assert!(matches!(A2aError::from_grpc_status_name("UNIMPLEMENTED", s("x")), A2aError::MethodNotFound(_)));
    assert!(matches!(A2aError::from_grpc_status_name("DATA_LOSS", s("x")), A2aError::Internal(_)));
}

#[test]
fn grpc_status_category_survives_a_round_trip() {
    for e in all_errors() {
        let back = A2aError::from_grpc_status_name(e.grpc_status_name(), e.standard_message());
        assert_eq!(back.grpc_status_name(), e.grpc_status_name());
    }
}

#[test]
fn standard_messages() {
    assert_eq!(A2aError::ParseError.standard_message(), "Invalid JSON payload");
    assert_eq!(A2aError::InvalidRequest(s("x")).standard_message(), "Request payload validation error");
    assert_eq!(A2aError::MethodNotFound(s("x")).standard_message(), "Method not found");
    assert_eq!(A2aError::InvalidParams(s("x")).standard_message(), "Invalid parameters");
    assert_eq!(A2aError::Internal(s("x")).standard_message(), "Internal error");
    assert_eq!(A2aError::TaskNotFound(s("task-7")).standard_message(), "task-7");
    assert_eq!(A2aError::PermissionDenied(s("who?")).standard_message(), "who?");
    assert_eq!(
        A2aError::PushNotificationNotSupported.standard_message(),
        "push notifications are not supported by this agent"
    );
    assert_eq!(
        A2aError::ExtendedAgentCardNotConfigured.standard_message(),
        "extended agent card not configured"
    );
}

#[test]
fn descriptive_sentences() {
    assert_eq!(A2aError::TaskNotFound(s("t1")).to_string(), "task not found: t1");
    assert_eq!(A2aError::VersionNotSupported(s("2.0")).to_string(), "A2A protocol version not supported: 2.0");
    assert_eq!(A2aError::Unauthenticated(s("x")).to_string(), "authentication required: x");
    assert_eq!(A2aError::ParseError.to_string(), "invalid JSON payload");
    assert_eq!(A2aError::Internal(s("oops")).to_string(), "internal error: oops");
}

#[test]
fn errors_map_to_grpc_statuses() {
    let st = a2a_error_to_status(A2aError::TaskNotFound(s("t9")));
    assert_eq!(st.code, GrpcCode::NotFound);
    assert_eq!(st.message, "t9");
    let st = a2a_error_to_status(A2aError::VersionNotSupported(s("3")));
    assert_eq!(st.code, GrpcCode::FailedPrecondition);
    let st = a2a_error_to_status(A2aError::ParseError);
    assert_eq!(st.code, GrpcCode::InvalidArgument);
    assert_eq!(st.message, "Invalid JSON payload");
    let st = a2a_error_to_status(A2aError::MethodNotFound(s("x")));
    assert_eq!(st.code, GrpcCode::Unimplemented);
    let st = a2a_error_to_status(A2aError::InvalidAgentResponse(s("x")));
    assert_eq!(st.code, GrpcCode::Internal);
    let st = a2a_error_to_status(A2aError::Unauthenticated(s("x")));
    assert_eq!(st.code, GrpcCode::Unauthenticated);
    let st = a2a_error_to_status(A2aError::PermissionDenied(s("x")));
    assert_eq!(st.code, GrpcCode::PermissionDenied);
}

#[test]
fn no_error_maps_to_unknown() {
    for e in all_errors() {
        let st = a2a_error_to_status(e);
        assert_ne!(st.code, GrpcCode::Unknown);
        assert_ne!(st.code, GrpcCode::Success);
    }
}

#[test]
fn jsonrpc_codes_are_read_back_into_errors() {
    let e = jsonrpc_error_to_a2a(-32001, s("t-1"));
    assert!(matches!(e, A2aError::TaskNotFound(ref m) if m == "t-1"));
    assert!(matches!(jsonrpc_error_to_a2a(-32003, s("ignored")), A2aError::PushNotificationNotSupported));
    assert!(matches!(jsonrpc_error_to_a2a(-32007, s("ignored")), A2aError::ExtendedAgentCardNotConfigured));
    assert!(matches!(jsonrpc_error_to_a2a(-32010, s("who?")), A2aError::Unauthenticated(ref m) if m == "who?"));
    assert!(matches!(jsonrpc_error_to_a2a(-32700, s("Invalid JSON payload")), A2aError::ParseError));
    assert!(matches!(jsonrpc_error_to_a2a(-32601, s("Method not found")), A2aError::MethodNotFound(ref m) if m == "Method not found"));
}

#[test]
fn an_unknown_jsonrpc_code_becomes_internal_with_the_message() {
    let e = jsonrpc_error_to_a2a(-32099, s("from the future"));
    assert!(matches!(e, A2aError::Internal(ref m) if m == "from the future"));
    let e = jsonrpc_error_to_a2a(1, s("odd"));
    assert!(matches!(e, A2aError::Internal(ref m) if m == "odd"));
}

#[test]
fn jsonrpc_errors_come_back_as_the_same_variant() {
    for e in all_errors() {
        let back = jsonrpc_error_to_a2a(e.json_rpc_code(), e.standard_message());
        assert_eq!(back.json_rpc_code(), e.json_rpc_code());
        let fixed_message = matches!(
            e,
            A2aError::InvalidRequest(_) | A2aError::MethodNotFound(_) | A2aError::InvalidParams(_) | A2aError::Internal(_)
        );
        if !fixed_message {
            assert_eq!(format!("{back:?}"), format!("{e:?}"));
        }
    }
}

#[test]
fn failed_precondition_covers_six_errors() {
    let covered: Vec<A2aError> =
        all_errors().into_iter().filter(|e| e.grpc_status_name() == "FAILED_PRECONDITION").collect();
    assert_eq!(covered.len(), 6);
    for e in covered {
        let back = A2aError::from_grpc_status_name(e.grpc_status_name(), e.standard_message());
        assert!(matches!(back, A2aError::UnsupportedOperation(_)));
    }
    let st = a2a_error_to_status(A2aError::PushNotificationNotSupported);
    assert_eq!(st.code, GrpcCode::FailedPrecondition);
}

#[test]
fn http_statuses_follow_grpc_statuses() {
    for e in all_errors() {
        let expected = match e.grpc_status_name() {
            "INTERNAL" => 500,
            "UNAUTHENTICATED" => 401,
            "PERMISSION_DENIED" => 403,
            "NOT_FOUND" | "UNIMPLEMENTED" => 404,
            _ => 400,
        };
        assert_eq!(e.http_status(), expected);
    }
}
