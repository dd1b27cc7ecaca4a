//! What reading gives back of writing, and writing of reading, across the
//! data model and its gRPC wire form.
//!
//! Writing then reading gives the value back, except that an optional
//! string set to `""` comes back absent (the wire cannot tell the two
//! apart). Reading then writing gives the wire message back, except that
//! an enum number outside the known range comes back as `0`. Strings are
//! compared by their text.
use vstd::prelude::*;

use crate::convert::{
    artifact_readable, message_readable, read_agent_card, read_artifact, read_interface, read_list_tasks_request, read_message, read_part, read_push_config, read_scheme_entries, read_security_scheme, read_send_response, read_stream_response, read_task, read_task_status, same_extension, same_requirement, same_scheme_scopes, same_signature, same_skill, security_scheme_readable, send_response_readable, spec_non_empty, spec_read_nanos, spec_read_role, spec_read_task_state, spec_read_timestamp, spec_role_to_pb, spec_wire_timestamp, spec_write_task_state, stream_response_readable, task_readable, task_status_readable, text_or_empty, wire_agent_card, wire_artifact, wire_interface, wire_list_tasks_request, wire_message, wire_part, wire_push_config, wire_scheme_entry, wire_security_scheme, wire_send_result, wire_stream_response, wire_task, wire_task_status,
};
use crate::error::opt_string_view;
use crate::pb;
use crate::time::UtcDateTime;
use crate::types as ours;

verus! {

/// The text an optional string keeps across the wire: `Some("")` becomes
/// absent.
pub open spec fn kept_text(o: Option<String>) -> Option<Seq<char>> {
    match o {
        Some(s) => if s@.len() == 0 {
            None
        } else {
            Some(s@)
        },
        None => None,
    }
}

/// `b` has the text `a` keeps across the wire.
pub open spec fn keeps_text(a: Option<String>, b: Option<String>) -> bool {
    opt_string_view(b) == kept_text(a)
}

// --- scalars ---

/// Every task state survives the wire, and every known wire number comes
/// back unchanged; an unknown number comes back as `0` (unspecified).
pub proof fn lemma_task_state_round_trip(s: ours::TaskState, n: i32)
    ensures
        spec_read_task_state(spec_write_task_state(s)) == s,
        spec_write_task_state(spec_read_task_state(n)) == (if 0 <= n <= 8 {
            n
        } else {
            0
        }),
{
}

/// Every role survives the wire, and every known wire number comes back
/// unchanged; an unknown number comes back as `0` (unspecified).
pub proof fn lemma_role_round_trip(r: ours::Role, n: i32)
    ensures
        spec_read_role(pb::spec_role_number(spec_role_to_pb(r))) == r,
        pb::spec_role_number(spec_role_to_pb(spec_read_role(n))) == (if 0 <= n <= 2 {
            n
        } else {
            0
        }),
{
}

/// An optional string read back from its wire form keeps its text, but
/// `Some("")` comes back absent; a wire string written back from its
/// reading is unchanged.
pub proof fn lemma_optional_string_round_trip(o: Option<String>, w: String, s: String)
    ensures
        w@ == text_or_empty(o) ==> keeps_text(o, spec_non_empty(w)),
        text_or_empty(spec_non_empty(s)) == s@,
{
}

/// An instant survives the wire unchanged.
pub proof fn lemma_timestamp_round_trip(dt: UtcDateTime)
    requires
        dt.wf(),
    ensures
        spec_read_timestamp(spec_wire_timestamp(dt)) == Some(dt),
{
    broadcast use UtcDateTime::lemma_spec_new_parts, UtcDateTime::lemma_parts_determine,
        UtcDateTime::lemma_wf_parts;

    let ts = spec_wire_timestamp(dt);
    assert(ts.nanos == dt.spec_nanos());
    assert(spec_read_nanos(ts) == dt.spec_nanos());
    UtcDateTime::lemma_spec_new_parts(dt.spec_seconds(), dt.spec_nanos());
    UtcDateTime::lemma_parts_determine(UtcDateTime::spec_new(dt.spec_seconds(), dt.spec_nanos()), dt);
}

// --- parts and messages ---

/// `b` is `a` as it comes back from the wire.
pub open spec fn part_comes_back(a: ours::Part, b: ours::Part) -> bool {
    &&& b.content == a.content
    &&& b.metadata == a.metadata
    &&& keeps_text(a.filename, b.filename)
    &&& keeps_text(a.media_type, b.media_type)
}

/// A written part reads, and reads back as itself.
pub proof fn lemma_part_round_trip(p: ours::Part, q: pb::Part, p2: ours::Part)
    requires
        wire_part(p, q),
    ensures
        q.content is Some,
        read_part(q, p2) ==> part_comes_back(p, p2),
{
}

/// `b` is `a` as it comes back from the wire.
pub open spec fn message_comes_back(a: ours::Message, b: ours::Message) -> bool {
    &&& b.message_id == a.message_id
    &&& keeps_text(a.context_id, b.context_id)
    &&& keeps_text(a.task_id, b.task_id)
    &&& b.role == a.role
    &&& b.parts@.len() == a.parts@.len()
    &&& forall|i: int| 0 <= i < a.parts@.len() ==> part_comes_back(a.parts@[i], #[trigger] b.parts@[i])
    &&& b.metadata == a.metadata
    &&& b.extensions == a.extensions
    &&& b.reference_task_ids == a.reference_task_ids
}

/// A written message is readable.
pub proof fn lemma_written_message_readable(m: ours::Message, q: pb::Message)
    requires
        wire_message(m, q),
    ensures
        message_readable(q),
{
    assert forall|i: int| 0 <= i < q.parts@.len() implies (#[trigger] q.parts@[i]).content is Some by {
        assert(wire_part(m.parts@[i], q.parts@[i]));
    }
}

/// A written message reads back as itself.
pub proof fn lemma_message_round_trip(m: ours::Message, q: pb::Message, m2: ours::Message)
    requires
        wire_message(m, q),
        read_message(q, m2),
    ensures
        message_comes_back(m, m2),
{
    lemma_role_round_trip(m.role, 0);
    assert forall|i: int| 0 <= i < m.parts@.len() implies part_comes_back(
        m.parts@[i],
        #[trigger] m2.parts@[i],
    ) by {
        assert(wire_part(m.parts@[i], q.parts@[i]));
        assert(read_part(q.parts@[i], m2.parts@[i]));
    }
}

/// `b` is the wire message `a` written back from its reading.
pub open spec fn wire_message_comes_back(a: pb::Message, b: pb::Message) -> bool {
    &&& b.message_id == a.message_id
    &&& b.context_id@ == a.context_id@
    &&& b.task_id@ == a.task_id@
    &&& b.role == (if 0 <= a.role <= 2 {
        a.role
    } else {
        0
    })
    &&& b.parts@.len() == a.parts@.len()
    &&& forall|i: int|
        0 <= i < a.parts@.len() ==> {
            let x = a.parts@[i];
            let y = #[trigger] b.parts@[i];
            &&& y.content == x.content
            &&& y.metadata == x.metadata
            &&& y.filename@ == x.filename@
            &&& y.media_type@ == x.media_type@
        }
    &&& b.metadata == a.metadata
    &&& b.extensions == a.extensions
    &&& b.reference_task_ids == a.reference_task_ids
}

/// A read wire message, written back, is the message that was read.
pub proof fn lemma_wire_message_round_trip(q: pb::Message, m: ours::Message, q2: pb::Message)
    requires
        read_message(q, m),
        wire_message(m, q2),
    ensures
        wire_message_comes_back(q, q2),
{
    lemma_role_round_trip(ours::Role::Unspecified, q.role);
    lemma_optional_string_round_trip(None, q.context_id, q.context_id);
    lemma_optional_string_round_trip(None, q.task_id, q.task_id);
    assert forall|i: int| 0 <= i < q.parts@.len() implies {
        let x = q.parts@[i];
        let y = #[trigger] q2.parts@[i];
        &&& y.content == x.content
        &&& y.metadata == x.metadata
        &&& y.filename@ == x.filename@
        &&& y.media_type@ == x.media_type@
    } by {
        assert(read_part(q.parts@[i], m.parts@[i]));
        assert(wire_part(m.parts@[i], q2.parts@[i]));
        lemma_optional_string_round_trip(None, q.parts@[i].filename, q.parts@[i].filename);
        lemma_optional_string_round_trip(None, q.parts@[i].media_type, q.parts@[i].media_type);
    }
}

// --- tasks ---

/// `b` is the status `a` as it comes back from the wire.
pub open spec fn task_status_comes_back(a: ours::TaskStatus, b: ours::TaskStatus) -> bool {
    &&& b.state == a.state
    &&& match a.message {
        Some(m) => b.message is Some && message_comes_back(m, b.message->0),
        None => b.message is None,
    }
    &&& b.timestamp == a.timestamp
}

/// A written task status is readable, and reads back as itself.
pub proof fn lemma_task_status_round_trip(s: ours::TaskStatus, q: pb::TaskStatus, s2: ours::TaskStatus)
    requires
        wire_task_status(s, q),
        s.timestamp is Some ==> s.timestamp->0.wf(),
    ensures
        task_status_readable(q),
        read_task_status(q, s2) ==> task_status_comes_back(s, s2),
{
    lemma_task_state_round_trip(s.state, 0);
    if let Some(m) = s.message {
        lemma_written_message_readable(m, q.message->0);
        if read_task_status(q, s2) {
            lemma_message_round_trip(m, q.message->0, s2.message->0);
        }
    }
    if let Some(dt) = s.timestamp {
        lemma_timestamp_round_trip(dt);
    }
}

/// `b` is the artifact `a` as it comes back from the wire.
pub open spec fn artifact_comes_back(a: ours::Artifact, b: ours::Artifact) -> bool {
    &&& b.artifact_id == a.artifact_id
    &&& keeps_text(a.name, b.name)
    &&& keeps_text(a.description, b.description)
    &&& b.parts@.len() == a.parts@.len()
    &&& forall|i: int| 0 <= i < a.parts@.len() ==> part_comes_back(a.parts@[i], #[trigger] b.parts@[i])
    &&& b.metadata == a.metadata
    &&& b.extensions == a.extensions
}

/// A written artifact is readable, and reads back as itself.
pub proof fn lemma_artifact_round_trip(a: ours::Artifact, q: pb::Artifact, a2: ours::Artifact)
    requires
        wire_artifact(a, q),
    ensures
        artifact_readable(q),
        read_artifact(q, a2) ==> artifact_comes_back(a, a2),
{
    assert forall|i: int| 0 <= i < q.parts@.len() implies (#[trigger] q.parts@[i]).content is Some by {
        assert(wire_part(a.parts@[i], q.parts@[i]));
    }
    if read_artifact(q, a2) {
        assert forall|i: int| 0 <= i < a.parts@.len() implies part_comes_back(
            a.parts@[i],
            #[trigger] a2.parts@[i],
        ) by {
            assert(wire_part(a.parts@[i], q.parts@[i]));
            assert(read_part(q.parts@[i], a2.parts@[i]));
        }
    }
}

/// Every instant in a task is valid.
pub open spec fn task_instants_valid(t: ours::Task) -> bool {
    &&& t.status.timestamp is Some ==> t.status.timestamp->0.wf()
}

/// `b` is the task `a` as it comes back from the wire.
pub open spec fn task_comes_back(a: ours::Task, b: ours::Task) -> bool {
    &&& b.id == a.id
    &&& keeps_text(a.context_id, b.context_id)
    &&& task_status_comes_back(a.status, b.status)
    &&& b.artifacts@.len() == a.artifacts@.len()
    &&& forall|i: int|
        0 <= i < a.artifacts@.len() ==> artifact_comes_back(a.artifacts@[i], #[trigger] b.artifacts@[i])
    &&& b.history@.len() == a.history@.len()
    &&& forall|i: int|
        0 <= i < a.history@.len() ==> message_comes_back(a.history@[i], #[trigger] b.history@[i])
    &&& b.metadata == a.metadata
}

/// A written task is readable, and reads back as itself: what a client
/// reads of the task a server sent is that task.
pub proof fn lemma_task_round_trip(t: ours::Task, q: pb::Task, t2: ours::Task)
    requires
        wire_task(t, q),
        task_instants_valid(t),
    ensures
        task_readable(q),
        read_task(q, t2) ==> task_comes_back(t, t2),
{
    lemma_task_status_round_trip(t.status, q.status->0, t2.status);
    assert forall|i: int| 0 <= i < q.artifacts@.len() implies artifact_readable(
        #[trigger] q.artifacts@[i],
    ) by {
        assert(wire_artifact(t.artifacts@[i], q.artifacts@[i]));
        lemma_artifact_round_trip(t.artifacts@[i], q.artifacts@[i], t.artifacts@[i]);
    }
    assert forall|i: int| 0 <= i < q.history@.len() implies message_readable(
        #[trigger] q.history@[i],
    ) by {
        assert(wire_message(t.history@[i], q.history@[i]));
        lemma_written_message_readable(t.history@[i], q.history@[i]);
    }
    if read_task(q, t2) {
        assert forall|i: int| 0 <= i < t.artifacts@.len() implies artifact_comes_back(
            t.artifacts@[i],
            #[trigger] t2.artifacts@[i],
        ) by {
            assert(wire_artifact(t.artifacts@[i], q.artifacts@[i]));
            assert(read_artifact(q.artifacts@[i], t2.artifacts@[i]));
            lemma_artifact_round_trip(t.artifacts@[i], q.artifacts@[i], t2.artifacts@[i]);
        }
        assert forall|i: int| 0 <= i < t.history@.len() implies message_comes_back(
            t.history@[i],
            #[trigger] t2.history@[i],
        ) by {
            assert(wire_message(t.history@[i], q.history@[i]));
            assert(read_message(q.history@[i], t2.history@[i]));
            lemma_message_round_trip(t.history@[i], q.history@[i], t2.history@[i]);
        }
    }
}

// --- push notification configs ---

/// `b` is the config `a` as it comes back from the wire.
pub open spec fn push_config_comes_back(a: ours::TaskPushNotificationConfig, b: ours::TaskPushNotificationConfig) -> bool {
    &&& keeps_text(a.tenant, b.tenant)
    &&& keeps_text(a.id, b.id)
    &&& keeps_text(a.task_id, b.task_id)
    &&& b.url == a.url
    &&& keeps_text(a.token, b.token)
    &&& match a.authentication {
        Some(x) => b.authentication is Some && b.authentication->0.scheme == x.scheme && keeps_text(
            x.credentials,
            b.authentication->0.credentials,
        ),
        None => b.authentication is None,
    }
}

/// A written push notification config reads back as itself.
pub proof fn lemma_push_config_round_trip(
    c: ours::TaskPushNotificationConfig,
    q: pb::TaskPushNotificationConfig,
    c2: ours::TaskPushNotificationConfig,
)
    requires
        wire_push_config(c, q),
        read_push_config(q, c2),
    ensures
        push_config_comes_back(c, c2),
{
}

/// A read wire push notification config, written back, has the text of
/// every field it was read from.
pub proof fn lemma_wire_push_config_round_trip(
    q: pb::TaskPushNotificationConfig,
    c: ours::TaskPushNotificationConfig,
    q2: pb::TaskPushNotificationConfig,
)
    requires
        read_push_config(q, c),
        wire_push_config(c, q2),
    ensures
        q2.tenant@ == q.tenant@,
        q2.id@ == q.id@,
        q2.task_id@ == q.task_id@,
        q2.url == q.url,
        q2.token@ == q.token@,
        match q.authentication {
            Some(x) => q2.authentication is Some && q2.authentication->0.scheme == x.scheme
                && q2.authentication->0.credentials@ == x.credentials@,
            None => q2.authentication is None,
        },
{
}

// --- requests ---

/// A `ListTasks` request survives the wire, except that a status filter of
/// `Unspecified` is written as `0` and so comes back as no filter.
pub proof fn lemma_list_tasks_request_round_trip(
    r: ours::ListTasksRequest,
    q: pb::ListTasksRequest,
    r2: ours::ListTasksRequest,
)
    requires
        wire_list_tasks_request(r, q),
        read_list_tasks_request(q, r2),
        r.status_timestamp_after is Some ==> r.status_timestamp_after->0.wf(),
    ensures
        keeps_text(r.tenant, r2.tenant),
        keeps_text(r.context_id, r2.context_id),
        r2.status == (if r.status == Some(ours::TaskState::Unspecified) {
            None
        } else {
            r.status
        }),
        r2.page_size == r.page_size,
        keeps_text(r.page_token, r2.page_token),
        r2.history_length == r.history_length,
        r2.status_timestamp_after == r.status_timestamp_after,
        r2.include_artifacts == r.include_artifacts,
{
    if let Some(s) = r.status {
        lemma_task_state_round_trip(s, 0);
    }
    if let Some(dt) = r.status_timestamp_after {
        lemma_timestamp_round_trip(dt);
    }
}

// --- streamed events and send results ---

/// Every instant in a streamed event is valid.
pub open spec fn stream_response_instants_valid(r: ours::StreamResponse) -> bool {
    match r {
        ours::StreamResponse::Task { task } => task_instants_valid(task),
        ours::StreamResponse::Message { message } => true,
        ours::StreamResponse::StatusUpdate { status_update } => status_update.status.timestamp is Some
            ==> status_update.status.timestamp->0.wf(),
        ours::StreamResponse::ArtifactUpdate { artifact_update } => true,
    }
}

/// `b` is the streamed event `a` as it comes back from the wire.
pub open spec fn stream_response_comes_back(a: ours::StreamResponse, b: ours::StreamResponse) -> bool {
    match a {
        ours::StreamResponse::Task { task } => b matches ours::StreamResponse::Task { task: t2 }
            && task_comes_back(task, t2),
        ours::StreamResponse::Message { message } => b matches ours::StreamResponse::Message {
            message: m2,
        } && message_comes_back(message, m2),
        ours::StreamResponse::StatusUpdate { status_update: e } => b matches ours::StreamResponse::StatusUpdate {
            status_update: e2,
        } && e2.task_id == e.task_id && e2.context_id == e.context_id && task_status_comes_back(
            e.status,
            e2.status,
        ) && e2.metadata == e.metadata,
        ours::StreamResponse::ArtifactUpdate { artifact_update: e } =>
            b matches ours::StreamResponse::ArtifactUpdate { artifact_update: e2 } && e2.task_id
            == e.task_id && e2.context_id == e.context_id && artifact_comes_back(
            e.artifact,
            e2.artifact,
        ) && e2.append == e.append && e2.last_chunk == e.last_chunk && e2.metadata == e.metadata,
    }
}

/// A streamed event a server writes is one a client can read, and it
/// reads back as the same event.
pub proof fn lemma_stream_response_round_trip(
    r: ours::StreamResponse,
    q: pb::StreamResponse,
    r2: ours::StreamResponse,
)
    requires
        wire_stream_response(r, q),
        stream_response_instants_valid(r),
    ensures
        stream_response_readable(q),
        read_stream_response(q, r2) ==> stream_response_comes_back(r, r2),
{
    match r {
        ours::StreamResponse::Task { task } => {
            let t = q.payload->0->Task_0;
            if let ours::StreamResponse::Task { task: t2 } = r2 {
                lemma_task_round_trip(task, t, t2);
            } else {
                lemma_task_round_trip(task, t, task);
            }
        },
        ours::StreamResponse::Message { message } => {
            let m = q.payload->0->Message_0;
            lemma_written_message_readable(message, m);
            if let ours::StreamResponse::Message { message: m2 } = r2 {
                if read_message(m, m2) {
                    lemma_message_round_trip(message, m, m2);
                }
            }
        },
        ours::StreamResponse::StatusUpdate { status_update: e } => {
            let qe = q.payload->0->StatusUpdate_0;
            if let ours::StreamResponse::StatusUpdate { status_update: e2 } = r2 {
                lemma_task_status_round_trip(e.status, qe.status->0, e2.status);
            } else {
                lemma_task_status_round_trip(e.status, qe.status->0, e.status);
            }
        },
        ours::StreamResponse::ArtifactUpdate { artifact_update: e } => {
            let qe = q.payload->0->ArtifactUpdate_0;
            if let ours::StreamResponse::ArtifactUpdate { artifact_update: e2 } = r2 {
                lemma_artifact_round_trip(e.artifact, qe.artifact->0, e2.artifact);
            } else {
                lemma_artifact_round_trip(e.artifact, qe.artifact->0, e.artifact);
            }
        },
    }
}

/// A `SendMessage` result a server writes is one a client can read: a task
/// comes back a task, and a bare message reply comes back a message,
/// creating no task.
pub proof fn lemma_send_result_round_trip(
    r: ours::SendMessageResult,
    q: pb::SendMessageResponse,
    r2: ours::SendMessageResult,
)
    requires
        wire_send_result(r, q),
        r matches ours::SendMessageResult::Task { task } ==> task_instants_valid(task),
    ensures
        send_response_readable(q),
        read_send_response(q, r2) ==> match r {
            ours::SendMessageResult::Task { task } => r2 matches ours::SendMessageResult::Task {
                task: t2,
            } && task_comes_back(task, t2),
            ours::SendMessageResult::Message { message } => r2 matches ours::SendMessageResult::Message {
                message: m2,
            } && message_comes_back(message, m2),
        },
{
    match r {
        ours::SendMessageResult::Task { task } => {
            let t = q.payload->0->Task_0;
            if let ours::SendMessageResult::Task { task: t2 } = r2 {
                lemma_task_round_trip(task, t, t2);
            } else {
                lemma_task_round_trip(task, t, task);
            }
        },
        ours::SendMessageResult::Message { message } => {
            let m = q.payload->0->Message_0;
            lemma_written_message_readable(message, m);
            if let ours::SendMessageResult::Message { message: m2 } = r2 {
                if read_message(m, m2) {
                    lemma_message_round_trip(message, m, m2);
                }
            }
        },
    }
}

// --- agent cards ---

/// `b` is the OAuth 2.0 flow `a` as it comes back from the wire.
pub open spec fn flows_come_back(a: ours::OAuthFlows, b: ours::OAuthFlows) -> bool {
    match a {
        ours::OAuthFlows::AuthorizationCode { authorization_code: x } => b matches ours::OAuthFlows::AuthorizationCode {
            authorization_code: y,
        } && y.authorization_url == x.authorization_url && y.token_url == x.token_url && keeps_text(
            x.refresh_url,
            y.refresh_url,
        ) && y.scopes == x.scopes && y.pkce_required == x.pkce_required,
        ours::OAuthFlows::ClientCredentials { client_credentials: x } => b matches ours::OAuthFlows::ClientCredentials {
            client_credentials: y,
        } && y.token_url == x.token_url && keeps_text(x.refresh_url, y.refresh_url) && y.scopes
            == x.scopes,
        ours::OAuthFlows::Implicit { implicit: x } => b matches ours::OAuthFlows::Implicit { implicit: y }
            && y.authorization_url == x.authorization_url && keeps_text(x.refresh_url, y.refresh_url)
            && y.scopes == x.scopes,
        ours::OAuthFlows::Password { password: x } => b matches ours::OAuthFlows::Password { password: y }
            && y.token_url == x.token_url && keeps_text(x.refresh_url, y.refresh_url) && y.scopes
            == x.scopes,
        ours::OAuthFlows::DeviceCode { device_code: x } => b matches ours::OAuthFlows::DeviceCode {
            device_code: y,
        } && y.device_authorization_url == x.device_authorization_url && y.token_url == x.token_url
            && keeps_text(x.refresh_url, y.refresh_url) && y.scopes == x.scopes,
    }
}

/// `b` is the security scheme `a` as it comes back from the wire.
pub open spec fn scheme_comes_back(a: ours::SecurityScheme, b: ours::SecurityScheme) -> bool {
    match a {
        ours::SecurityScheme::ApiKey { api_key_security_scheme: x } => b matches ours::SecurityScheme::ApiKey {
            api_key_security_scheme: y,
        } && keeps_text(x.description, y.description) && y.location == x.location && y.name == x.name,
        ours::SecurityScheme::HttpAuth { http_auth_security_scheme: x } => b matches ours::SecurityScheme::HttpAuth {
            http_auth_security_scheme: y,
        } && keeps_text(x.description, y.description) && y.scheme == x.scheme && keeps_text(
            x.bearer_format,
            y.bearer_format,
        ),
        ours::SecurityScheme::OAuth2 { oauth2_security_scheme: x } => b matches ours::SecurityScheme::OAuth2 {
            oauth2_security_scheme: y,
        } && keeps_text(x.description, y.description) && flows_come_back(x.flows, y.flows) && keeps_text(
            x.oauth2_metadata_url,
            y.oauth2_metadata_url,
        ),
        ours::SecurityScheme::OpenIdConnect { open_id_connect_security_scheme: x } =>
            b matches ours::SecurityScheme::OpenIdConnect { open_id_connect_security_scheme: y }
            && keeps_text(x.description, y.description) && y.open_id_connect_url == x.open_id_connect_url,
        ours::SecurityScheme::MutualTls { mtls_security_scheme: x } => b matches ours::SecurityScheme::MutualTls {
            mtls_security_scheme: y,
        } && keeps_text(x.description, y.description),
    }
}

/// A written security scheme is readable, and reads back as itself.
pub proof fn lemma_security_scheme_round_trip(s: ours::SecurityScheme, q: pb::SecurityScheme, s2: ours::SecurityScheme)
    requires
        wire_security_scheme(s, q),
    ensures
        security_scheme_readable(q),
        read_security_scheme(q, s2) ==> scheme_comes_back(s, s2),
{
}

/// A scheme entry and its reading.
pub open spec fn entry_read(a: (String, pb::SecurityScheme), b: (String, ours::SecurityScheme)) -> bool {
    b.0 == a.0 && read_security_scheme(a.1, b.1)
}

/// When every entry of `src` is readable, reading keeps them all, in
/// order.
proof fn lemma_read_all_scheme_entries(
    src: Seq<(String, pb::SecurityScheme)>,
    out: Seq<(String, ours::SecurityScheme)>,
)
    requires
        forall|i: int| 0 <= i < src.len() ==> security_scheme_readable(#[trigger] src[i].1),
        read_scheme_entries(src, out),
    ensures
        out.len() == src.len(),
        forall|i: int| 0 <= i < src.len() ==> #[trigger] entry_read(src[i], out[i]),
    decreases src.len(),
{
    if src.len() > 0 {
        let last = src.len() - 1;
        assert(security_scheme_readable(src[last].1));
        let s0 = src.drop_last();
        let o0 = out.drop_last();
        assert forall|i: int| 0 <= i < s0.len() implies security_scheme_readable(#[trigger] s0[i].1) by {
            assert(s0[i] == src[i]);
        }
        lemma_read_all_scheme_entries(s0, o0);
        assert forall|i: int| 0 <= i < src.len() implies #[trigger] entry_read(src[i], out[i]) by {
            if i < last {
                assert(out[i] == o0[i]);
                assert(src[i] == s0[i]);
                assert(entry_read(s0[i], o0[i]));
            } else {
                assert(out[i] == out.last());
                assert(src[i] == src.last());
            }
        }
    }
}

/// `b` is the card `a` as it comes back from the wire.
pub open spec fn card_comes_back(a: ours::AgentCard, b: ours::AgentCard) -> bool {
    &&& b.name == a.name
    &&& b.description == a.description
    &&& b.supported_interfaces@.len() == a.supported_interfaces@.len()
    &&& forall|i: int|
        0 <= i < a.supported_interfaces@.len() ==> {
            let x = a.supported_interfaces@[i];
            let y = #[trigger] b.supported_interfaces@[i];
            y.url == x.url && y.protocol_binding == x.protocol_binding && keeps_text(x.tenant, y.tenant)
                && y.protocol_version == x.protocol_version
        }
    &&& b.provider == a.provider
    &&& b.version == a.version
    &&& keeps_text(a.documentation_url, b.documentation_url)
    &&& b.capabilities.streaming == a.capabilities.streaming
    &&& b.capabilities.push_notifications == a.capabilities.push_notifications
    &&& b.capabilities.extensions@ == a.capabilities.extensions@
    &&& b.capabilities.extended_agent_card == a.capabilities.extended_agent_card
    &&& b.security_schemes@.len() == a.security_schemes@.len()
    &&& forall|i: int|
        0 <= i < a.security_schemes@.len() ==> (#[trigger] b.security_schemes@[i]).0
            == a.security_schemes@[i].0 && scheme_comes_back(a.security_schemes@[i].1, b.security_schemes@[i].1)
    &&& b.security_requirements@.len() == a.security_requirements@.len()
    &&& forall|i: int|
        0 <= i < a.security_requirements@.len() ==> (#[trigger] b.security_requirements@[i]).schemes@
            == a.security_requirements@[i].schemes@
    &&& b.default_input_modes == a.default_input_modes
    &&& b.default_output_modes == a.default_output_modes
    &&& b.skills@.len() == a.skills@.len()
    &&& forall|i: int|
        0 <= i < a.skills@.len() ==> {
            let x = a.skills@[i];
            let y = #[trigger] b.skills@[i];
            &&& y.id == x.id && y.name == x.name && y.description == x.description
            &&& y.tags == x.tags && y.examples == x.examples
            &&& y.input_modes == x.input_modes && y.output_modes == x.output_modes
            &&& y.security_requirements@.len() == x.security_requirements@.len()
            &&& forall|j: int|
                0 <= j < x.security_requirements@.len() ==> (#[trigger] y.security_requirements@[j]).schemes@
                    == x.security_requirements@[j].schemes@
        }
    &&& b.signatures@ == a.signatures@
    &&& keeps_text(a.icon_url, b.icon_url)
}

/// A requirement written and read back names the same schemes with the
/// same scopes.
proof fn lemma_requirement_round_trip(
    s: ours::SecurityRequirement,
    q: pb::SecurityRequirement,
    s2: ours::SecurityRequirement,
)
    requires
        same_requirement(s, q),
        same_requirement(s2, q),
    ensures
        s2.schemes@ == s.schemes@,
{
    assert forall|i: int| 0 <= i < s.schemes@.len() implies s2.schemes@[i] == s.schemes@[i] by {
        assert(same_scheme_scopes(s.schemes@[i], q.schemes@[i]));
        assert(same_scheme_scopes(s2.schemes@[i], q.schemes@[i]));
    }
    assert(s2.schemes@ =~= s.schemes@);
}

/// An agent card a server sends reads back whole on the client: every
/// field, interface, security scheme, requirement, skill and signature.
pub proof fn lemma_agent_card_round_trip(c: ours::AgentCard, q: pb::AgentCard, c2: ours::AgentCard)
    requires
        wire_agent_card(c, q),
        read_agent_card(q, c2),
    ensures
        card_comes_back(c, c2),
{
    assert forall|i: int| 0 <= i < c.supported_interfaces@.len() implies {
        let x = c.supported_interfaces@[i];
        let y = #[trigger] c2.supported_interfaces@[i];
        y.url == x.url && y.protocol_binding == x.protocol_binding && keeps_text(x.tenant, y.tenant)
            && y.protocol_version == x.protocol_version
    } by {
        assert(wire_interface(c.supported_interfaces@[i], q.supported_interfaces@[i]));
        assert(read_interface(q.supported_interfaces@[i], c2.supported_interfaces@[i]));
    }
    let caps = q.capabilities->0;
    assert forall|i: int| 0 <= i < c.capabilities.extensions@.len() implies c2.capabilities.extensions@[i]
        == c.capabilities.extensions@[i] by {
        assert(same_extension(c.capabilities.extensions@[i], caps.extensions@[i]));
        assert(same_extension(c2.capabilities.extensions@[i], caps.extensions@[i]));
    }
    assert(c2.capabilities.extensions@ =~= c.capabilities.extensions@);
    assert forall|i: int| 0 <= i < q.security_schemes@.len() implies security_scheme_readable(
        #[trigger] q.security_schemes@[i].1,
    ) by {
        assert(wire_scheme_entry(c.security_schemes@[i], q.security_schemes@[i]));
        lemma_security_scheme_round_trip(
            c.security_schemes@[i].1,
            q.security_schemes@[i].1,
            c.security_schemes@[i].1,
        );
    }
    lemma_read_all_scheme_entries(q.security_schemes@, c2.security_schemes@);
    assert forall|i: int| 0 <= i < c.security_schemes@.len() implies (
    #[trigger] c2.security_schemes@[i]).0 == c.security_schemes@[i].0 && scheme_comes_back(
        c.security_schemes@[i].1,
        c2.security_schemes@[i].1,
    ) by {
        assert(wire_scheme_entry(c.security_schemes@[i], q.security_schemes@[i]));
        assert(entry_read(q.security_schemes@[i], c2.security_schemes@[i]));
        lemma_security_scheme_round_trip(
            c.security_schemes@[i].1,
            q.security_schemes@[i].1,
            c2.security_schemes@[i].1,
        );
    }
    assert forall|i: int| 0 <= i < c.security_requirements@.len() implies (
    #[trigger] c2.security_requirements@[i]).schemes@ == c.security_requirements@[i].schemes@ by {
        assert(same_requirement(c.security_requirements@[i], q.security_requirements@[i]));
        assert(same_requirement(c2.security_requirements@[i], q.security_requirements@[i]));
        lemma_requirement_round_trip(
            c.security_requirements@[i],
            q.security_requirements@[i],
            c2.security_requirements@[i],
        );
    }
    assert forall|i: int| 0 <= i < c.skills@.len() implies {
        let x = c.skills@[i];
        let y = #[trigger] c2.skills@[i];
        &&& y.id == x.id && y.name == x.name && y.description == x.description
        &&& y.tags == x.tags && y.examples == x.examples
        &&& y.input_modes == x.input_modes && y.output_modes == x.output_modes
        &&& y.security_requirements@.len() == x.security_requirements@.len()
        &&& forall|j: int|
            0 <= j < x.security_requirements@.len() ==> (#[trigger] y.security_requirements@[j]).schemes@
                == x.security_requirements@[j].schemes@
    } by {
        let x = c.skills@[i];
        let w = q.skills@[i];
        let y = c2.skills@[i];
        assert(same_skill(x, w));
        assert(same_skill(y, w));
        assert forall|j: int| 0 <= j < x.security_requirements@.len() implies (
        #[trigger] y.security_requirements@[j]).schemes@ == x.security_requirements@[j].schemes@ by {
            assert(same_requirement(x.security_requirements@[j], w.security_requirements@[j]));
            assert(same_requirement(y.security_requirements@[j], w.security_requirements@[j]));
            lemma_requirement_round_trip(
                x.security_requirements@[j],
                w.security_requirements@[j],
                y.security_requirements@[j],
            );
        }
    }
    assert forall|i: int| 0 <= i < c.signatures@.len() implies c2.signatures@[i] == c.signatures@[i] by {
        assert(same_signature(c.signatures@[i], q.signatures@[i]));
        assert(same_signature(c2.signatures@[i], q.signatures@[i]));
    }
    assert(c2.signatures@ =~= c.signatures@);
}

// --- what conversions keep: distinct map keys ---

/// A requirement and its wire form name the same schemes, so one has
/// distinct names exactly when the other does.
pub proof fn lemma_requirement_keys(s: ours::SecurityRequirement, q: pb::SecurityRequirement)
    requires
        same_requirement(s, q),
    ensures
        ours::keys_distinct(s.schemes@) <==> ours::keys_distinct(q.schemes@),
{
    assert forall|i: int| 0 <= i < s.schemes@.len() implies (#[trigger] s.schemes@[i]).0 == q.schemes@[i].0 by {
        assert(same_scheme_scopes(s.schemes@[i], q.schemes@[i]));
    }
}

/// Reading a list of scheme entries keeps only names it was given, and
/// keeps them distinct.
proof fn lemma_read_entries_keys(src: Seq<(String, pb::SecurityScheme)>, out: Seq<(String, ours::SecurityScheme)>)
    requires
        read_scheme_entries(src, out),
    ensures
        forall|k: int|
            0 <= k < out.len() ==> exists|i: int|
                #![trigger src[i]]
                0 <= i < src.len() && (#[trigger] out[k]).0@ == src[i].0@,
        ours::keys_distinct(src) ==> ours::keys_distinct(out),
    decreases src.len(),
{
    if src.len() > 0 {
        let s0 = src.drop_last();
        let last = src.len() - 1;
        if security_scheme_readable(src.last().1) {
            let o0 = out.drop_last();
            lemma_read_entries_keys(s0, o0);
            assert forall|k: int| 0 <= k < out.len() implies exists|i: int|
                #![trigger src[i]]
                0 <= i < src.len() && (#[trigger] out[k]).0@ == src[i].0@ by {
                if k < out.len() - 1 {
                    assert(out[k] == o0[k]);
                    let i = choose|i: int| #![trigger s0[i]] 0 <= i < s0.len() && o0[k].0@ == s0[i].0@;
                    assert(src[i] == s0[i]);
                } else {
                    assert(out[k] == out.last());
                    assert(src[last] == src.last());
                }
            }
            if ours::keys_distinct(src) {
                assert(ours::keys_distinct(s0)) by {
                    assert forall|i: int, j: int|
                        0 <= i < s0.len() && 0 <= j < s0.len() && i != j implies (#[trigger] s0[i]).0@
                        != (#[trigger] s0[j]).0@ by {
                        assert(s0[i] == src[i]);
                        assert(s0[j] == src[j]);
                    }
                }
                assert forall|a: int, b: int|
                    0 <= a < out.len() && 0 <= b < out.len() && a != b implies (#[trigger] out[a]).0@
                    != (#[trigger] out[b]).0@ by {
                    let n = out.len() - 1;
                    if a < n && b < n {
                        assert(out[a] == o0[a]);
                        assert(out[b] == o0[b]);
                    } else if a == n {
                        assert(out[b] == o0[b]);
                        let i = choose|i: int| #![trigger s0[i]] 0 <= i < s0.len() && o0[b].0@ == s0[i].0@;
                        assert(s0[i] == src[i]);
                        assert(out[a] == out.last());
                        assert(src[last] == src.last());
                    } else {
                        assert(out[a] == o0[a]);
                        let i = choose|i: int| #![trigger s0[i]] 0 <= i < s0.len() && o0[a].0@ == s0[i].0@;
                        assert(s0[i] == src[i]);
                        assert(out[b] == out.last());
                        assert(src[last] == src.last());
                    }
                }
            }
        } else {
            lemma_read_entries_keys(s0, out);
            assert forall|k: int| 0 <= k < out.len() implies exists|i: int|
                #![trigger src[i]]
                0 <= i < src.len() && (#[trigger] out[k]).0@ == src[i].0@ by {
                let i = choose|i: int| #![trigger s0[i]] 0 <= i < s0.len() && out[k].0@ == s0[i].0@;
                assert(src[i] == s0[i]);
            }
            if ours::keys_distinct(src) {
                assert forall|i: int, j: int|
                    0 <= i < s0.len() && 0 <= j < s0.len() && i != j implies (#[trigger] s0[i]).0@
                    != (#[trigger] s0[j]).0@ by {
                    assert(s0[i] == src[i]);
                    assert(s0[j] == src[j]);
                }
            }
        }
    }
}

/// A scheme and its wire form have the same scopes.
proof fn lemma_wire_scheme_scopes(s: ours::SecurityScheme, q: pb::SecurityScheme)
    requires
        wire_security_scheme(s, q),
    ensures
        ours::scheme_scopes_distinct(s) <==> pb::scheme_scopes_distinct(q),
{
}

/// A scheme read from its wire form has the same scopes.
proof fn lemma_read_scheme_scopes(q: pb::SecurityScheme, s: ours::SecurityScheme)
    requires
        read_security_scheme(q, s),
    ensures
        pb::scheme_scopes_distinct(q) <==> ours::scheme_scopes_distinct(s),
{
}

/// Reading a list of wire schemes keeps each scheme's scope names distinct.
proof fn lemma_read_entries_scopes(src: Seq<(String, pb::SecurityScheme)>, out: Seq<(String, ours::SecurityScheme)>)
    requires
        read_scheme_entries(src, out),
        forall|i: int| 0 <= i < src.len() ==> pb::scheme_scopes_distinct((#[trigger] src[i]).1),
    ensures
        forall|k: int| 0 <= k < out.len() ==> ours::scheme_scopes_distinct((#[trigger] out[k]).1),
    decreases src.len(),
{
    if src.len() > 0 {
        let s0 = src.drop_last();
        assert forall|i: int| 0 <= i < s0.len() implies pb::scheme_scopes_distinct((#[trigger] s0[i]).1) by {
            assert(s0[i] == src[i]);
        }
        assert(pb::scheme_scopes_distinct(src[src.len() - 1].1));
        if security_scheme_readable(src.last().1) {
            let o0 = out.drop_last();
            lemma_read_entries_scopes(s0, o0);
            lemma_read_scheme_scopes(src.last().1, out.last().1);
            assert forall|k: int| 0 <= k < out.len() implies ours::scheme_scopes_distinct((#[trigger] out[k]).1) by {
                if k < out.len() - 1 {
                    assert(out[k] == o0[k]);
                }
            }
        } else {
            lemma_read_entries_scopes(s0, out);
        }
    }
}

/// Writing a card keeps the names of each of its maps distinct.
pub proof fn lemma_wire_card_keeps_keys_distinct(c: ours::AgentCard, q: pb::AgentCard)
    requires
        wire_agent_card(c, q),
        ours::card_keys_distinct(c),
    ensures
        pb::card_keys_distinct(q),
{
    assert forall|i: int, j: int|
        0 <= i < q.security_schemes@.len() && 0 <= j < q.security_schemes@.len() && i != j implies (
    #[trigger] q.security_schemes@[i]).0@ != (#[trigger] q.security_schemes@[j]).0@ by {
        assert(wire_scheme_entry(c.security_schemes@[i], q.security_schemes@[i]));
        assert(wire_scheme_entry(c.security_schemes@[j], q.security_schemes@[j]));
    }
    assert forall|i: int| 0 <= i < q.security_schemes@.len() implies pb::scheme_scopes_distinct(
        (#[trigger] q.security_schemes@[i]).1,
    ) by {
        assert(wire_scheme_entry(c.security_schemes@[i], q.security_schemes@[i]));
        assert(ours::scheme_scopes_distinct(c.security_schemes@[i].1));
        lemma_wire_scheme_scopes(c.security_schemes@[i].1, q.security_schemes@[i].1);
    }
    assert forall|i: int| 0 <= i < q.security_requirements@.len() implies ours::keys_distinct(
        (#[trigger] q.security_requirements@[i]).schemes@,
    ) by {
        assert(same_requirement(c.security_requirements@[i], q.security_requirements@[i]));
        lemma_requirement_keys(c.security_requirements@[i], q.security_requirements@[i]);
    }
    assert forall|i: int| 0 <= i < q.skills@.len() implies forall|j: int|
        0 <= j < (#[trigger] q.skills@[i]).security_requirements@.len() ==> ours::keys_distinct(
            (#[trigger] q.skills@[i].security_requirements@[j]).schemes@,
        ) by {
        assert(same_skill(c.skills@[i], q.skills@[i]));
        assert forall|j: int| 0 <= j < q.skills@[i].security_requirements@.len() implies ours::keys_distinct(
            (#[trigger] q.skills@[i].security_requirements@[j]).schemes@,
        ) by {
            assert(same_requirement(
                c.skills@[i].security_requirements@[j],
                q.skills@[i].security_requirements@[j],
            ));
            lemma_requirement_keys(
                c.skills@[i].security_requirements@[j],
                q.skills@[i].security_requirements@[j],
            );
        }
    }
}

/// Reading a card keeps the names of each of its maps distinct (dropping
/// unreadable security schemes cannot make two names collide).
pub proof fn lemma_read_card_keeps_keys_distinct(q: pb::AgentCard, c: ours::AgentCard)
    requires
        read_agent_card(q, c),
        pb::card_keys_distinct(q),
    ensures
        ours::card_keys_distinct(c),
{
    lemma_read_entries_keys(q.security_schemes@, c.security_schemes@);
    lemma_read_entries_scopes(q.security_schemes@, c.security_schemes@);
    assert forall|i: int| 0 <= i < c.security_requirements@.len() implies ours::keys_distinct(
        (#[trigger] c.security_requirements@[i]).schemes@,
    ) by {
        assert(same_requirement(c.security_requirements@[i], q.security_requirements@[i]));
        lemma_requirement_keys(c.security_requirements@[i], q.security_requirements@[i]);
    }
    assert forall|i: int| 0 <= i < c.skills@.len() implies forall|j: int|
        0 <= j < (#[trigger] c.skills@[i]).security_requirements@.len() ==> ours::keys_distinct(
            (#[trigger] c.skills@[i].security_requirements@[j]).schemes@,
        ) by {
        assert(same_skill(c.skills@[i], q.skills@[i]));
        assert forall|j: int| 0 <= j < c.skills@[i].security_requirements@.len() implies ours::keys_distinct(
            (#[trigger] c.skills@[i].security_requirements@[j]).schemes@,
        ) by {
            assert(same_requirement(
                c.skills@[i].security_requirements@[j],
                q.skills@[i].security_requirements@[j],
            ));
            lemma_requirement_keys(
                c.skills@[i].security_requirements@[j],
                q.skills@[i].security_requirements@[j],
            );
        }
    }
}

} // verus!
