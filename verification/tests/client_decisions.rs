use rusty_a2a::client::{
    agent_card_url, cancel_task_path, is_event_stream, jsonrpc_not_a_stream, jsonrpc_target,
    push_config_path, push_configs_path, read_rest_error_body, rest_base_url, rest_error,
    rest_error_from_body, rest_not_a_stream, rest_target,
    rest_url, sse_event_has_data, status_to_error, is_success_status, jsonrpc_outcome, JsonRpcErrorObject, grpc_result, grpc_stream_item, subscribe_path, task_path, ClientConfig,
    ClientError, RestErrorBody, RestErrorObject, PROTOCOL_VERSION,
};
use rusty_a2a::error::A2aError;
use rusty_a2a::status::{a2a_error_to_status, GrpcCode, RpcStatus};
use rusty_a2a::types::{AgentCapabilities, AgentCard, AgentInterface, TaskPushNotificationConfig};

fn s(x: &str) -> String {
    x.to_string()
}

fn pairs(v: &[(String, String)]) -> Vec<(&str, &str)> {
    v.iter().map(|(k, v)| (k.as_str(), v.as_str())).collect()
}

#[test]
fn a_new_config_sends_only_the_protocol_version() {
    let c = ClientConfig::new();
    assert_eq!(c.protocol_version, PROTOCOL_VERSION);
    assert_eq!(PROTOCOL_VERSION, "1.0");
    assert_eq!(pairs(&c.http_headers()), vec![("A2A-Version", "1.0")]);
    assert_eq!(pairs(&c.grpc_metadata()), vec![("a2a-version", "1.0")]);
}

#[test]
fn configured_service_parameters_become_headers() {
    let c = ClientConfig::new()
        .with_bearer_token(s("tok"))
        .with_extensions(vec![s("urn:a"), s("urn:b")])
        .with_protocol_version(s("0.3"))
        .with_tenant(s("acme"));
    assert_eq!(
        pairs(&c.http_headers()),
        vec![("A2A-Version", "0.3"), ("A2A-Extensions", "urn:a,urn:b"), ("Authorization", "Bearer tok")]
    );
    assert_eq!(
        pairs(&c.grpc_metadata()),
        vec![("a2a-version", "0.3"), ("a2a-extensions", "urn:a,urn:b"), ("authorization", "Bearer tok")]
    );
    assert_eq!(c.tenant, Some(s("acme")));
}

#[test]
fn requests_carry_the_clients_tenant() {
    let c = ClientConfig::new().with_tenant(s("acme"));
    assert_eq!(c.get_task_request(s("t1"), Some(3)).tenant, Some(s("acme")));
    assert_eq!(c.cancel_task_request(s("t1")).id, "t1");
    assert_eq!(c.subscribe_request(s("t1")).tenant, Some(s("acme")));
    let l = c.list_push_configs_request(s("t1"));
    assert_eq!(l.page_size, None);
    assert_eq!(l.page_token, None);
    assert_eq!(c.extended_card_request().tenant, Some(s("acme")));
    assert_eq!(c.grpc_extended_card_request().tenant, "acme");
    assert_eq!(ClientConfig::new().grpc_extended_card_request().tenant, "");
    let cfg = TaskPushNotificationConfig {
        tenant: Some(s("other")),
        id: None,
        task_id: Some(s("wrong")),
        url: s("https://example.com/hook"),
        token: None,
        authentication: None,
    };
    let created = c.rest_push_config_to_create("task-9", cfg);
    assert_eq!(created.tenant, Some(s("acme")));
    assert_eq!(created.task_id, Some(s("task-9")));
    assert_eq!(created.url, "https://example.com/hook");
}

#[test]
fn rest_paths_and_urls() {
    assert_eq!(task_path("t1"), "/tasks/t1");
    assert_eq!(cancel_task_path("t1"), "/tasks/t1:cancel");
    assert_eq!(subscribe_path("t1"), "/tasks/t1:subscribe");
    assert_eq!(push_configs_path("t1"), "/tasks/t1/pushNotificationConfigs");
    assert_eq!(push_config_path("t1", "c2"), "/tasks/t1/pushNotificationConfigs/c2");
    assert_eq!(rest_base_url("http://agent.example.com//"), "http://agent.example.com");
    assert_eq!(rest_url("http://a", "/tasks"), "http://a/tasks");
    assert_eq!(agent_card_url("https://agent.example.com/"), "https://agent.example.com/.well-known/agent-card.json");
    assert_eq!(agent_card_url("https://agent.example.com"), "https://agent.example.com/.well-known/agent-card.json");
}

fn interface(url: &str, binding: &str, tenant: Option<&str>) -> AgentInterface {
    AgentInterface { url: s(url), protocol_binding: s(binding), tenant: tenant.map(s), protocol_version: s("1.0") }
}

fn card_with(interfaces: Vec<AgentInterface>) -> AgentCard {
    AgentCard {
        name: s("n"),
        description: s("d"),
        supported_interfaces: interfaces,
        provider: None,
        version: s("1"),
        documentation_url: None,
        capabilities: AgentCapabilities::default(),
        security_schemes: vec![],
        security_requirements: vec![],
        default_input_modes: vec![],
        default_output_modes: vec![],
        skills: vec![],
        signatures: vec![],
        icon_url: None,
    }
}

#[test]
fn discovery_picks_the_first_interface_of_the_binding() {
    let card = card_with(vec![
        interface("grpc://a", "GRPC", None),
        interface("http://rest-1", "HTTP+JSON", Some("t1")),
        interface("http://rpc", "JSONRPC", None),
        interface("http://rest-2", "HTTP+JSON", None),
    ]);
    assert_eq!(rest_target(&card).unwrap(), (s("http://rest-1"), Some(s("t1"))));
    assert_eq!(jsonrpc_target(&card).unwrap(), (s("http://rpc"), None));
    assert_eq!(card.interface_for_binding("GRPC").map(|i| i.url.as_str()), Some("grpc://a"));
    assert!(card.interface_for_binding("SOAP").is_none());
}

#[test]
fn a_card_without_the_binding_is_refused() {
    let card = card_with(vec![interface("grpc://a", "GRPC", None)]);
    assert!(matches!(jsonrpc_target(&card), Err(ClientError::NoJsonRpcInterface)));
    assert!(matches!(rest_target(&card), Err(ClientError::NoRestInterface)));
}

#[test]
fn grpc_statuses_become_protocol_errors() {
    let e = status_to_error(RpcStatus::new(GrpcCode::NotFound, s("no-such-task")));
    assert!(matches!(e, ClientError::Protocol(A2aError::TaskNotFound(ref m)) if m == "no-such-task"));
    let e = status_to_error(RpcStatus::new(GrpcCode::FailedPrecondition, s("terminal")));
    assert!(matches!(e, ClientError::Protocol(A2aError::UnsupportedOperation(_))));
    let e = status_to_error(RpcStatus::new(GrpcCode::DeadlineExceeded, s("slow")));
    assert!(matches!(e, ClientError::Protocol(A2aError::Internal(ref m)) if m == "slow"));
}

#[test]
fn a_missing_task_comes_back_as_an_error() {
    let e = status_to_error(a2a_error_to_status(A2aError::TaskNotFound(s("t-404"))));
    assert!(matches!(e, ClientError::Protocol(A2aError::TaskNotFound(ref m)) if m == "t-404"));
}

#[test]
fn rest_error_bodies_are_read_by_reason() {
    let body = RestErrorBody {
        error: Some(RestErrorObject {
            message: Some(s("no-such-task")),
            status: Some(s("NOT_FOUND")),
            first_detail_reason: Some(s("TASK_NOT_FOUND")),
        }),
    };
    let e = rest_error(404, s("{...}"), Some(body));
    assert!(matches!(e, ClientError::Protocol(A2aError::TaskNotFound(ref m)) if m == "no-such-task"));

    let body = RestErrorBody {
        error: Some(RestErrorObject { message: Some(s("done")), status: Some(s("FAILED_PRECONDITION")), first_detail_reason: Some(s("TASK_NOT_CANCELABLE")) }),
    };
    assert!(matches!(rest_error(400, s(""), Some(body)), ClientError::Protocol(A2aError::TaskNotCancelable(_))));
}

#[test]
fn rest_error_bodies_without_reason_fall_back_to_the_status_name() {
    let body = RestErrorBody { error: Some(RestErrorObject { message: None, status: Some(s("PERMISSION_DENIED")), first_detail_reason: None }) };
    let e = rest_error(403, s(""), Some(body));
    assert!(matches!(e, ClientError::Protocol(A2aError::PermissionDenied(ref m)) if m.is_empty()));
    let body = RestErrorBody { error: Some(RestErrorObject { message: Some(s("x")), status: None, first_detail_reason: None }) };
    assert!(matches!(rest_error(500, s(""), Some(body)), ClientError::Protocol(A2aError::Internal(_))));
}

#[test]
fn rest_bodies_that_are_not_statuses_are_unexpected() {
    let e = rest_error(502, s("<html>"), None);
    assert!(matches!(e, ClientError::UnexpectedResponse { status: 502, ref body } if body == "<html>"));
    let e = rest_error(500, s("{}"), Some(RestErrorBody { error: None }));
    assert!(matches!(e, ClientError::UnexpectedResponse { status: 500, ref body } if body == "{}"));
}

#[test]
fn streams_are_recognised_by_content_type() {
    assert!(is_event_stream(Some("text/event-stream")));
    assert!(is_event_stream(Some("text/event-stream; charset=utf-8")));
    assert!(!is_event_stream(Some("application/json")));
    assert!(!is_event_stream(None));
    assert!(sse_event_has_data("{}"));
    assert!(!sse_event_has_data(""));
}

#[test]
fn non_stream_answers_to_a_stream_request() {
    let e = rest_not_a_stream(200, "{\"id\":1}");
    assert!(matches!(e, ClientError::UnexpectedResponse { status: 200, ref body } if body == "expected an SSE stream, got: {\"id\":1}"));
    let e = jsonrpc_not_a_stream(200, Err(A2aError::TaskNotCancelable(s("t"))));
    assert!(matches!(e, ClientError::Protocol(A2aError::TaskNotCancelable(_))));
    let e = jsonrpc_not_a_stream(200, Ok(serde_json::Value::Null));
    assert!(matches!(e, ClientError::UnexpectedResponse { status: 200, ref body } if body == "expected an SSE stream but got a non-streaming success response"));
}

#[test]
fn discovery_picks_the_http_json_interface() {
    let card = card_with(vec![interface("http://127.0.0.1:1", "HTTP+JSON", None)]);
    assert!(matches!(jsonrpc_target(&card), Err(ClientError::NoJsonRpcInterface)));
    assert!(rest_target(&card).is_ok());
}

fn status_body(code: u16, status: &str, message: &str, reason: &str) -> String {
    format!(
        "{{\"error\":{{\"code\":{code},\"status\":\"{status}\",\"message\":\"{message}\",\"details\":[{{\"@type\":\"type.googleapis.com/google.rpc.ErrorInfo\",\"reason\":\"{reason}\",\"domain\":\"a2a-protocol.org\"}}]}}}}"
    )
}

#[test]
fn a_missing_task_comes_back_as_the_right_error_variant() {
    let body = status_body(404, "NOT_FOUND", "no-such-task", "TASK_NOT_FOUND");
    match rest_error_from_body(404, body) {
        ClientError::Protocol(A2aError::TaskNotFound(m)) => assert_eq!(m, "no-such-task"),
        other => panic!("expected TaskNotFound, got {other:?}"),
    }
}

#[test]
fn subscribing_to_a_terminal_task_is_refused_before_streaming() {
    let body = status_body(400, "FAILED_PRECONDITION", "task is terminal", "UNSUPPORTED_OPERATION");
    match rest_error_from_body(400, body) {
        ClientError::Protocol(A2aError::UnsupportedOperation(m)) => assert_eq!(m, "task is terminal"),
        other => panic!("expected a protocol error, got {other:?}"),
    }
}

#[test]
fn a_reason_names_the_error_even_where_the_status_is_shared() {
    let body = status_body(400, "FAILED_PRECONDITION", "v9", "VERSION_NOT_SUPPORTED");
    assert!(matches!(rest_error_from_body(400, body), ClientError::Protocol(A2aError::VersionNotSupported(ref m)) if m == "v9"));
}

#[test]
fn status_bodies_are_read_member_by_member() {
    let read = read_rest_error_body(&status_body(404, "NOT_FOUND", "gone", "TASK_NOT_FOUND")).unwrap();
    let obj = read.error.unwrap();
    assert_eq!(obj.message.as_deref(), Some("gone"));
    assert_eq!(obj.status.as_deref(), Some("NOT_FOUND"));
    assert_eq!(obj.first_detail_reason.as_deref(), Some("TASK_NOT_FOUND"));

    let read = read_rest_error_body("{\"error\":{\"status\":\"UNAUTHENTICATED\",\"details\":[]}}").unwrap();
    let obj = read.error.unwrap();
    assert_eq!(obj.message, None);
    assert_eq!(obj.status.as_deref(), Some("UNAUTHENTICATED"));
    assert_eq!(obj.first_detail_reason, None);

    assert!(read_rest_error_body("{\"ok\":true}").unwrap().error.is_none());
    assert!(read_rest_error_body("not json").is_none());
}

#[test]
fn status_bodies_without_reason_fall_back_to_the_status_name() {
    let e = rest_error_from_body(401, s("{\"error\":{\"status\":\"UNAUTHENTICATED\",\"message\":\"who?\"}}"));
    assert!(matches!(e, ClientError::Protocol(A2aError::Unauthenticated(ref m)) if m == "who?"));
    let e = rest_error_from_body(500, s("{\"error\":\"boom\"}"));
    assert!(matches!(e, ClientError::Protocol(A2aError::Internal(ref m)) if m.is_empty()));
    let e = rest_error_from_body(400, s("{\"error\":{\"message\":7,\"status\":\"INVALID_ARGUMENT\",\"details\":[{\"reason\":5}]}}"));
    assert!(matches!(e, ClientError::Protocol(A2aError::InvalidParams(ref m)) if m.is_empty()));
}

#[test]
fn bodies_that_are_not_statuses_stay_unexpected() {
    let e = rest_error_from_body(502, s("<html>bad gateway</html>"));
    assert!(matches!(e, ClientError::UnexpectedResponse { status: 502, ref body } if body == "<html>bad gateway</html>"));
    let e = rest_error_from_body(500, s("[1, 2]"));
    assert!(matches!(e, ClientError::UnexpectedResponse { status: 500, ref body } if body == "[1, 2]"));
}

#[test]
fn grpc_outcomes_become_client_results() {
    let ok: Result<u32, RpcStatus> = Ok(7);
    assert!(matches!(grpc_result(ok), Ok(7)));
    let failed: Result<u32, RpcStatus> = Err(RpcStatus::new(GrpcCode::PermissionDenied, s("not yours")));
    assert!(matches!(grpc_result(failed), Err(ClientError::Protocol(A2aError::PermissionDenied(ref m))) if m == "not yours"));
}

#[test]
fn grpc_stream_items_are_read_or_reported() {
    let failed = grpc_stream_item(Err(RpcStatus::new(GrpcCode::Unavailable, s("gone"))));
    assert!(matches!(failed, Err(ClientError::Protocol(A2aError::Internal(ref m))) if m == "gone"));
    let empty = grpc_stream_item(Ok(rusty_a2a::pb::StreamResponse { payload: None }));
    assert!(matches!(empty, Err(ClientError::Protocol(A2aError::Internal(ref m))) if m == "stream response carried no payload"));
    let status = rusty_a2a::pb::TaskStatus { state: 3, message: None, timestamp: None };
    let event = rusty_a2a::pb::TaskStatusUpdateEvent { task_id: s("t"), context_id: s("c"), status: Some(status), metadata: None };
    let read = grpc_stream_item(Ok(rusty_a2a::pb::StreamResponse { payload: Some(rusty_a2a::pb::StreamPayload::StatusUpdate(event)) }));
    match read {
        Ok(rusty_a2a::types::StreamResponse::StatusUpdate { status_update }) => {
            assert_eq!(status_update.task_id, "t");
            assert_eq!(status_update.status.state, rusty_a2a::types::TaskState::Completed);
        }
        other => panic!("expected a status update, got {other:?}"),
    }
}

#[test]
fn success_statuses_are_the_two_hundreds() {
    assert!(is_success_status(200));
    assert!(is_success_status(204));
    assert!(is_success_status(299));
    assert!(!is_success_status(199));
    assert!(!is_success_status(300));
    assert!(!is_success_status(404));
}

#[test]
fn jsonrpc_responses_report_their_error_or_result() {
    let r = jsonrpc_outcome(Some(JsonRpcErrorObject { code: -32001, message: s("t-1") }), serde_json::Value::Null);
    assert!(matches!(r, Err(A2aError::TaskNotFound(ref m)) if m == "t-1"));
    let r = jsonrpc_outcome(None, serde_json::Value::from(42));
    assert_eq!(r.unwrap(), serde_json::Value::from(42));
}
