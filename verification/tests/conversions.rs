use rusty_a2a::convert::{our_cancel_task_request_to_pb, our_get_push_config_request_to_pb, our_list_push_notification_configs_response_to_pb, our_list_tasks_response_to_pb, our_subscribe_request_to_pb, pb_delete_push_notification_config_request_to_ours, pb_list_push_configs_response_to_ours, chrono_to_timestamp, non_empty, or_empty, our_agent_card_to_pb, our_delete_push_config_request_to_pb, our_get_task_request_to_pb, our_list_push_configs_request_to_pb, our_list_tasks_request_to_pb, our_message_to_pb, our_part_to_pb, our_push_config_to_pb, our_role_to_pb, our_send_message_request_to_pb, our_send_result_to_pb, our_stream_response_to_pb, our_task_state_to_pb, our_task_to_pb, pb_agent_card_to_ours, pb_cancel_task_request_to_ours, pb_get_push_notification_config_request_to_ours, pb_get_task_request_to_ours, pb_list_push_notification_configs_request_to_ours, pb_list_tasks_request_to_ours, pb_list_tasks_response_to_ours, pb_message_to_ours, pb_part_to_ours, pb_push_config_to_ours, pb_role_to_ours, pb_send_message_request_to_ours, pb_send_response_to_ours, pb_stream_response_to_ours, pb_subscribe_to_task_request_to_ours, pb_task_state_to_ours, pb_task_to_ours, timestamp_to_chrono};
use rusty_a2a::json::JsonObject;
use rusty_a2a::pb;
use rusty_a2a::status::GrpcCode;
use rusty_a2a::time::UtcDateTime;
use rusty_a2a::types::{CancelTaskRequest, GetTaskPushNotificationConfigRequest, ListTaskPushNotificationConfigsResponse, ListTasksResponse, AgentCapabilities, AgentCard, AgentInterface, AgentSkill, Artifact, AuthenticationInfo, ClientCredentialsOAuthFlow, DeleteTaskPushNotificationConfigRequest, GetTaskRequest, ListTaskPushNotificationConfigsRequest, ListTasksRequest, Message, OAuth2SecurityScheme, OAuthFlows, Part, PartContent, Role, SecurityRequirement, SecurityScheme, SendMessageConfiguration, SendMessageRequest, SendMessageResult, StreamResponse, StringList, SubscribeToTaskRequest, Task, TaskPushNotificationConfig, TaskState, TaskStatus, TaskStatusUpdateEvent};

fn s(x: &str) -> String {
    x.to_string()
}

fn meta(key: &str, value: i64) -> JsonObject {
    let mut m = serde_json::Map::new();
    m.insert(s(key), serde_json::Value::from(value));
    m
}

fn text_part(t: &str) -> Part {
    Part { content: PartContent::Text { text: s(t) }, metadata: None, filename: None, media_type: None }
}

fn user_message(id: &str, t: &str) -> Message {
    Message {
        message_id: s(id),
        context_id: Some(s("ctx")),
        task_id: None,
        role: Role::User,
        parts: vec![text_part(t)],
        metadata: Some(meta("k", 1)),
        extensions: vec![s("ext-a")],
        reference_task_ids: vec![],
    }
}

fn wire_text_part(t: &str) -> pb::Part {
    pb::Part { metadata: None, filename: String::new(), media_type: String::new(), content: Some(pb::PartContent::Text(s(t))) }
}

fn wire_message(parts: Vec<pb::Part>, role: i32) -> pb::Message {
    pb::Message {
        message_id: s("m1"),
        context_id: String::new(),
        task_id: s("t1"),
        role,
        parts,
        metadata: None,
        extensions: vec![],
        reference_task_ids: vec![s("r1")],
    }
}

#[test]
fn task_states_map_to_wire_numbers_and_back() {
    let states = [
        TaskState::Unspecified,
        TaskState::Submitted,
        TaskState::Working,
        TaskState::Completed,
        TaskState::Failed,
        TaskState::Canceled,
        TaskState::InputRequired,
        TaskState::Rejected,
        TaskState::AuthRequired,
    ];
    for (i, st) in states.iter().enumerate() {
        let n = our_task_state_to_pb(*st).number();
        assert_eq!(n, i as i32);
        assert_eq!(pb_task_state_to_ours(n), *st);
    }
    assert_eq!(pb_task_state_to_ours(42), TaskState::Unspecified);
    assert_eq!(pb_task_state_to_ours(-1), TaskState::Unspecified);
}

#[test]
fn roles_map_to_wire_numbers_and_back() {
    assert_eq!(our_role_to_pb(Role::User).number(), 1);
    assert_eq!(our_role_to_pb(Role::Agent).number(), 2);
    assert_eq!(pb_role_to_ours(2), Role::Agent);
    assert_eq!(pb_role_to_ours(1), Role::User);
    assert_eq!(pb_role_to_ours(7), Role::Unspecified);
}

#[test]
fn empty_strings_read_as_absent() {
    assert_eq!(non_empty(String::new()), None);
    assert_eq!(non_empty(s("x")), Some(s("x")));
    assert_eq!(or_empty(None), "");
    assert_eq!(or_empty(Some(s("y"))), "y");
}

#[test]
fn a_message_survives_the_wire() {
    let m = user_message("m1", "hello");
    let q = our_message_to_pb(user_message("m1", "hello"));
    assert_eq!(q.context_id, "ctx");
    assert_eq!(q.task_id, "");
    assert_eq!(q.role, 1);
    let back = pb_message_to_ours(q).expect("readable");
    assert_eq!(back, m);
}

#[test]
fn a_wire_message_reads_with_empty_strings_absent() {
    let m = pb_message_to_ours(wire_message(vec![wire_text_part("hi")], 2)).unwrap();
    assert_eq!(m.context_id, None);
    assert_eq!(m.task_id, Some(s("t1")));
    assert_eq!(m.role, Role::Agent);
    assert_eq!(m.parts, vec![text_part("hi")]);
    assert_eq!(m.reference_task_ids, vec![s("r1")]);
}

#[test]
fn a_part_without_content_is_refused() {
    let empty = pb::Part { metadata: None, filename: s("f.txt"), media_type: String::new(), content: None };
    let err = pb_message_to_ours(wire_message(vec![wire_text_part("a"), empty], 1)).unwrap_err();
    assert_eq!(err.code, GrpcCode::InvalidArgument);
    assert_eq!(err.message, "Part.content is required");
}

#[test]
fn some_empty_string_does_not_survive_the_wire() {
    let p = Part {
        content: PartContent::Url { url: s("https://x") },
        metadata: None,
        filename: Some(String::new()),
        media_type: Some(s("text/plain")),
    };
    let back = pb_part_to_ours(our_part_to_pb(p)).unwrap();
    assert_eq!(back.filename, None);
    assert_eq!(back.media_type, Some(s("text/plain")));
}

#[test]
fn raw_and_data_parts_keep_their_content() {
    let raw = Part { content: PartContent::Raw { raw: vec![1, 2, 3] }, metadata: Some(meta("a", 2)), filename: None, media_type: None };
    let back = pb_part_to_ours(our_part_to_pb(raw)).unwrap();
    assert_eq!(back.content, PartContent::Raw { raw: vec![1, 2, 3] });
    assert_eq!(back.metadata, Some(meta("a", 2)));
    let data = Part { content: PartContent::Data { data: serde_json::Value::Bool(true) }, metadata: None, filename: None, media_type: None };
    let q = our_part_to_pb(data);
    assert_eq!(q.content, Some(pb::PartContent::Data(serde_json::Value::Bool(true))));
}

fn sample_task(id: &str) -> Task {
    Task {
        id: s(id),
        context_id: Some(s("c")),
        status: TaskStatus {
            state: TaskState::Completed,
            message: Some(user_message("done", "done")),
            timestamp: UtcDateTime::from_timestamp(1_700_000_000, 5),
        },
        artifacts: vec![Artifact {
            artifact_id: s("result"),
            name: Some(s("the result")),
            description: None,
            parts: vec![text_part("42")],
            metadata: None,
            extensions: vec![],
        }],
        history: vec![user_message("m1", "please compute")],
        metadata: None,
    }
}

#[test]
fn a_task_survives_the_wire() {
    let q = our_task_to_pb(sample_task("task-1"));
    let st = q.status.as_ref().unwrap();
    assert_eq!(st.state, 3);
    assert_eq!(st.timestamp, Some(pb::Timestamp { seconds: 1_700_000_000, nanos: 5 }));
    assert_eq!(q.artifacts[0].name, "the result");
    assert_eq!(q.artifacts[0].description, "");
    let back = pb_task_to_ours(q).unwrap();
    assert_eq!(back, sample_task("task-1"));
}

#[test]
fn a_task_without_status_is_an_internal_error() {
    let mut q = our_task_to_pb(sample_task("t"));
    q.status = None;
    let err = pb_task_to_ours(q).unwrap_err();
    assert_eq!(err.code, GrpcCode::Internal);
    assert_eq!(err.message, "task is missing its status");
}

#[test]
fn negative_and_out_of_range_timestamps() {
    assert_eq!(timestamp_to_chrono(pb::Timestamp { seconds: 10, nanos: -5 }).map(|t| t.timestamp_subsec_nanos()), Some(0));
    assert!(timestamp_to_chrono(pb::Timestamp { seconds: i64::MAX, nanos: 0 }).is_none());
    assert!(UtcDateTime::from_timestamp(0, 2_000_000_000).is_none());
    let dt = UtcDateTime::from_timestamp(86_399, 1_500_000_000).expect("leap second");
    assert_eq!(chrono_to_timestamp(dt), pb::Timestamp { seconds: 86_399, nanos: 1_500_000_000 });
    assert!(UtcDateTime::from_timestamp(100, 1_500_000_000).is_none());
}

#[test]
fn stream_responses_need_a_payload() {
    let err = pb_stream_response_to_ours(pb::StreamResponse { payload: None }).unwrap_err();
    assert_eq!(err.code, GrpcCode::Internal);
    assert_eq!(err.message, "stream response carried no payload");
    let err = pb_send_response_to_ours(pb::SendMessageResponse { payload: None }).unwrap_err();
    assert_eq!(err.message, "send response carried no payload");
}

#[test]
fn stream_events_survive_the_wire() {
    let ev = StreamResponse::StatusUpdate {
        status_update: TaskStatusUpdateEvent {
            task_id: s("t"),
            context_id: s("c"),
            status: TaskStatus { state: TaskState::Working, message: None, timestamp: None },
            metadata: None,
        },
    };
    let q = our_stream_response_to_pb(ev);
    let back = pb_stream_response_to_ours(q).unwrap();
    assert!(matches!(back, StreamResponse::StatusUpdate { ref status_update } if status_update.status.state == TaskState::Working));

    let missing = pb::StreamResponse {
        payload: Some(pb::StreamPayload::ArtifactUpdate(pb::TaskArtifactUpdateEvent {
            task_id: s("t"),
            context_id: s("c"),
            artifact: None,
            append: false,
            last_chunk: true,
            metadata: None,
        })),
    };
    assert_eq!(pb_stream_response_to_ours(missing).unwrap_err().message, "artifact update is missing its artifact");
    let missing = pb::StreamResponse {
        payload: Some(pb::StreamPayload::StatusUpdate(pb::TaskStatusUpdateEvent {
            task_id: s("t"),
            context_id: s("c"),
            status: None,
            metadata: None,
        })),
    };
    assert_eq!(pb_stream_response_to_ours(missing).unwrap_err().message, "status update is missing its status");
}

#[test]
fn a_bare_message_reply_stays_a_message() {
    let r = SendMessageResult::Message { message: user_message("reply", "what did you mean?") };
    let back = pb_send_response_to_ours(our_send_result_to_pb(r)).unwrap();
    assert_eq!(back, SendMessageResult::Message { message: user_message("reply", "what did you mean?") });
}

fn push_config() -> TaskPushNotificationConfig {
    TaskPushNotificationConfig {
        tenant: None,
        id: Some(s("cfg-1")),
        task_id: Some(s("task-1")),
        url: s("https://example.com/hook"),
        token: None,
        authentication: Some(AuthenticationInfo { scheme: s("Bearer"), credentials: None }),
    }
}

#[test]
fn push_configs_survive_the_wire_both_ways() {
    let q = our_push_config_to_pb(push_config());
    assert_eq!(q.tenant, "");
    assert_eq!(q.token, "");
    assert_eq!(q.authentication, Some(pb::AuthenticationInfo { scheme: s("Bearer"), credentials: String::new() }));
    let back = pb_push_config_to_ours(q);
    assert_eq!(back, push_config());
    let q2 = our_push_config_to_pb(back);
    assert_eq!(q2, our_push_config_to_pb(push_config()));
}

#[test]
fn list_requests_read_zero_as_unset() {
    let r = pb_list_tasks_request_to_ours(pb::ListTasksRequest {
        tenant: String::new(),
        context_id: s("c"),
        status: 0,
        page_size: Some(10),
        page_token: String::new(),
        history_length: None,
        status_timestamp_after: Some(pb::Timestamp { seconds: 5, nanos: 0 }),
        include_artifacts: Some(true),
    });
    assert_eq!(r.tenant, None);
    assert_eq!(r.context_id, Some(s("c")));
    assert_eq!(r.status, None);
    assert_eq!(r.status_timestamp_after.map(|t| t.timestamp()), Some(5));
    let r = pb_list_tasks_request_to_ours(pb::ListTasksRequest {
        tenant: s("acme"),
        context_id: String::new(),
        status: 5,
        page_size: None,
        page_token: s("p2"),
        history_length: Some(3),
        status_timestamp_after: None,
        include_artifacts: None,
    });
    assert_eq!(r.status, Some(TaskState::Canceled));
    assert_eq!(r.page_token, Some(s("p2")));
    let r = pb_list_push_notification_configs_request_to_ours(pb::ListTaskPushNotificationConfigsRequest {
        tenant: String::new(),
        task_id: s("t"),
        page_size: 0,
        page_token: String::new(),
    });
    assert_eq!(r.page_size, None);
    assert_eq!(r.page_token, None);
}

#[test]
fn list_requests_write_unset_as_zero() {
    let q = our_list_tasks_request_to_pb(ListTasksRequest {
        tenant: None,
        context_id: None,
        status: Some(TaskState::Working),
        page_size: None,
        page_token: None,
        history_length: None,
        status_timestamp_after: None,
        include_artifacts: None,
    });
    assert_eq!(q.status, 2);
    assert_eq!(q.tenant, "");
    let q = our_list_push_configs_request_to_pb(ListTaskPushNotificationConfigsRequest {
        tenant: Some(s("acme")),
        task_id: s("t"),
        page_size: None,
        page_token: None,
    });
    assert_eq!(q.page_size, 0);
    assert_eq!(q.tenant, "acme");
}

#[test]
fn simple_requests_convert_field_by_field() {
    let q = our_get_task_request_to_pb(GetTaskRequest { tenant: None, id: s("t1"), history_length: Some(2) });
    assert_eq!(q, pb::GetTaskRequest { tenant: String::new(), id: s("t1"), history_length: Some(2) });
    let r = pb_get_task_request_to_ours(q);
    assert_eq!(r, GetTaskRequest { tenant: None, id: s("t1"), history_length: Some(2) });
    let r = pb_cancel_task_request_to_ours(pb::CancelTaskRequest { tenant: s("x"), id: s("t"), metadata: None });
    assert_eq!(r.tenant, Some(s("x")));
    let r = pb_subscribe_to_task_request_to_ours(pb::SubscribeToTaskRequest { tenant: String::new(), id: s("t") });
    assert_eq!(r, SubscribeToTaskRequest { tenant: None, id: s("t") });
    let q = our_delete_push_config_request_to_pb(DeleteTaskPushNotificationConfigRequest { tenant: None, task_id: s("t"), id: s("c") });
    assert_eq!(q.id, "c");
    let r = pb_get_push_notification_config_request_to_ours(pb::GetTaskPushNotificationConfigRequest { tenant: String::new(), task_id: s("t"), id: s("c") });
    assert_eq!(r.tenant, None);
}

#[test]
fn a_send_message_request_needs_a_message() {
    let err = pb_send_message_request_to_ours(pb::SendMessageRequest { tenant: String::new(), message: None, configuration: None, metadata: None }).unwrap_err();
    assert_eq!(err.code, GrpcCode::InvalidArgument);
    assert_eq!(err.message, "message is required");
    let req = SendMessageRequest {
        tenant: Some(s("acme")),
        message: user_message("m", "please compute"),
        configuration: Some(SendMessageConfiguration {
            accepted_output_modes: vec![s("text/plain")],
            task_push_notification_config: Some(push_config()),
            history_length: Some(1),
            return_immediately: true,
        }),
        metadata: None,
    };
    let back = pb_send_message_request_to_ours(our_send_message_request_to_pb(req)).unwrap();
    assert_eq!(back.tenant, Some(s("acme")));
    assert_eq!(back.configuration.unwrap().task_push_notification_config, Some(push_config()));
}

#[test]
fn the_first_unreadable_task_names_the_error() {
    let mut bad_part = our_task_to_pb(sample_task("a"));
    bad_part.history[0].parts[0].content = None;
    let mut no_status = our_task_to_pb(sample_task("b"));
    no_status.status = None;
    let r = pb::ListTasksResponse { tasks: vec![our_task_to_pb(sample_task("ok")), bad_part, no_status], next_page_token: s("n"), page_size: 3, total_size: 3 };
    assert_eq!(pb_list_tasks_response_to_ours(r).unwrap_err().message, "Part.content is required");
    let ok = pb::ListTasksResponse { tasks: vec![our_task_to_pb(sample_task("x"))], next_page_token: s("n"), page_size: 1, total_size: 9 };
    let back = pb_list_tasks_response_to_ours(ok).unwrap();
    assert_eq!(back.total_size, 9);
    assert_eq!(back.tasks, vec![sample_task("x")]);
}

fn card() -> AgentCard {
    AgentCard {
        name: s("gRPC Test Agent"),
        description: s("An A2A agent used for GrpcClient's tests."),
        supported_interfaces: vec![AgentInterface { url: s("http://127.0.0.1:1"), protocol_binding: s("JSONRPC"), tenant: None, protocol_version: s("1.0") }],
        provider: None,
        version: s("0.0.0"),
        documentation_url: None,
        capabilities: AgentCapabilities { streaming: Some(true), push_notifications: Some(true), extensions: vec![], extended_agent_card: Some(true) },
        security_schemes: vec![(
            s("oauth"),
            SecurityScheme::OAuth2 {
                oauth2_security_scheme: OAuth2SecurityScheme {
                    description: None,
                    flows: OAuthFlows::ClientCredentials {
                        client_credentials: ClientCredentialsOAuthFlow { token_url: s("https://t"), refresh_url: None, scopes: vec![(s("read"), s("Read"))] },
                    },
                    oauth2_metadata_url: None,
                },
            },
        )],
        security_requirements: vec![SecurityRequirement { schemes: vec![(s("oauth"), StringList { list: vec![s("read")] })] }],
        default_input_modes: vec![s("text/plain")],
        default_output_modes: vec![s("text/plain")],
        skills: vec![AgentSkill {
            id: s("compute"),
            name: s("Compute"),
            description: s("Computes things."),
            tags: vec![s("math"), s("demo")],
            examples: vec![],
            input_modes: vec![],
            output_modes: vec![],
            security_requirements: vec![],
        }],
        signatures: vec![],
        icon_url: None,
    }
}

#[test]
fn the_extended_agent_card_converts_back_whole() {
    let card = pb_agent_card_to_ours(our_agent_card_to_pb(card())).unwrap();
    assert_eq!(card, self::card());

    assert_eq!(card.name, "gRPC Test Agent");
    assert_eq!(card.description, "An A2A agent used for GrpcClient's tests.");
    assert_eq!(card.version, "0.0.0");
    assert_eq!(card.capabilities.streaming, Some(true));
    assert_eq!(card.capabilities.push_notifications, Some(true));
    assert_eq!(card.capabilities.extended_agent_card, Some(true));

    assert_eq!(card.supported_interfaces.len(), 1);
    assert_eq!(card.supported_interfaces[0].protocol_binding, "JSONRPC");
    assert!(card.supported_interfaces[0].tenant.is_none());

    assert_eq!(card.skills.len(), 1);
    assert_eq!(card.skills[0].id, "compute");
    assert_eq!(card.skills[0].tags, vec!["math", "demo"]);
    assert_eq!(card.default_input_modes, vec!["text/plain"]);
}

#[test]
fn unreadable_security_schemes_are_dropped() {
    let mut q = our_agent_card_to_pb(card());
    q.security_schemes.push((s("empty"), pb::SecurityScheme { scheme: None }));
    q.security_schemes.push((
        s("flowless"),
        pb::SecurityScheme { scheme: Some(pb::Scheme::Oauth2SecurityScheme(pb::OAuth2SecurityScheme { description: String::new(), flows: Some(pb::OAuthFlows { flow: None }), oauth2_metadata_url: String::new() })) },
    ));
    q.security_schemes.push((
        s("mtls"),
        pb::SecurityScheme { scheme: Some(pb::Scheme::MtlsSecurityScheme(pb::MutualTlsSecurityScheme { description: s("certs") })) },
    ));
    q.capabilities = None;
    q.documentation_url = Some(String::new());
    let back = pb_agent_card_to_ours(q).unwrap();
    let names: Vec<&str> = back.security_schemes.iter().map(|(k, _)| k.as_str()).collect();
    assert_eq!(names, vec!["oauth", "mtls"]);
    assert_eq!(back.capabilities, AgentCapabilities { streaming: None, push_notifications: None, extensions: vec![], extended_agent_card: None });
    assert_eq!(back.documentation_url, None);
}

#[test]
fn more_requests_convert_field_by_field() {
    let q = our_cancel_task_request_to_pb(CancelTaskRequest { tenant: Some(s("acme")), id: s("t9"), metadata: Some(meta("why", 3)) });
    assert_eq!(q, pb::CancelTaskRequest { tenant: s("acme"), id: s("t9"), metadata: Some(meta("why", 3)) });
    let q = our_subscribe_request_to_pb(SubscribeToTaskRequest { tenant: None, id: s("t9") });
    assert_eq!(q, pb::SubscribeToTaskRequest { tenant: String::new(), id: s("t9") });
    let q = our_get_push_config_request_to_pb(GetTaskPushNotificationConfigRequest { tenant: None, task_id: s("t"), id: s("c") });
    assert_eq!(q, pb::GetTaskPushNotificationConfigRequest { tenant: String::new(), task_id: s("t"), id: s("c") });
    let r = pb_delete_push_notification_config_request_to_ours(pb::DeleteTaskPushNotificationConfigRequest { tenant: s("acme"), task_id: s("t"), id: s("c") });
    assert_eq!(r, DeleteTaskPushNotificationConfigRequest { tenant: Some(s("acme")), task_id: s("t"), id: s("c") });
}

#[test]
fn list_responses_survive_the_wire() {
    let q = our_list_push_notification_configs_response_to_pb(ListTaskPushNotificationConfigsResponse { configs: vec![push_config()], next_page_token: s("next") });
    assert_eq!(q.next_page_token, "next");
    assert_eq!(q.configs, vec![our_push_config_to_pb(push_config())]);
    let back = pb_list_push_configs_response_to_ours(q);
    assert_eq!(back, ListTaskPushNotificationConfigsResponse { configs: vec![push_config()], next_page_token: s("next") });

    let q = our_list_tasks_response_to_pb(ListTasksResponse { tasks: vec![sample_task("a"), sample_task("b")], next_page_token: String::new(), page_size: 2, total_size: 7 });
    assert_eq!((q.page_size, q.total_size), (2, 7));
    let back = pb_list_tasks_response_to_ours(q).unwrap();
    assert_eq!(back, ListTasksResponse { tasks: vec![sample_task("a"), sample_task("b")], next_page_token: String::new(), page_size: 2, total_size: 7 });
}

#[test]
fn instants_of_the_common_era_are_accepted() {
    assert!(UtcDateTime::from_timestamp(-62_135_596_800, 0).is_some());
    assert!(UtcDateTime::from_timestamp(253_402_300_799, 999_999_999).is_some());
    assert!(UtcDateTime::from_timestamp(-1, 0).is_some());
    assert!(UtcDateTime::from_timestamp(59, 1_000_000_000).is_some());
    assert!(UtcDateTime::from_timestamp(58, 1_000_000_000).is_none());
    assert!(UtcDateTime::from_timestamp(i64::MAX, 0).is_none());
}
