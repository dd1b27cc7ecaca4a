//! What the A2A clients decide, apart from sending and receiving: the
//! requests they build, the URLs and headers they address, and how they
//! read the errors an agent answers with.
//!
//! One client type per protocol binding does the I/O: JSON-RPC 2.0,
//! HTTP+JSON/REST and gRPC. All three share a [`ClientConfig`] and the
//! decisions below.
use vstd::prelude::*;

use crate::error::{
    A2aError, jsonrpc_error_to_a2a, spec_jsonrpc_error_to_a2a, lemma_grpc_generic_variant_round_trip, lemma_grpc_status_name_preserved,
    lemma_reason_round_trip, opt_string_view, same_error, spec_detail, spec_from_grpc_status_name,
    spec_from_reason, spec_grpc_status_name, spec_reason, spec_standard_message,
};
use crate::convert::{
    or_empty, pb_stream_response_to_ours, read_stream_response, stream_response_error,
    stream_response_readable, text_or_empty,
};
use crate::json::{
    JsonValue, json_array, json_array_of, json_member, json_member_of, json_string, json_string_of,
    json_text_value, parse_json,
};
use crate::pb;
use crate::status::{
    GrpcCode, RpcStatus, lemma_status_code_round_trip, lemma_status_names_of_codes, names_a2a_category, spec_code_for_status_name, spec_status_name_for_code,
    status_name_for_code,
};
use crate::text::{concat, join, spec_join, spec_trim_trailing_slashes, starts_with, str_eq, texts, trim_trailing_slashes};
use crate::types::{
    AgentCard, AgentInterface, CancelTaskRequest, DeleteTaskPushNotificationConfigRequest,
    GetExtendedAgentCardRequest, GetTaskPushNotificationConfigRequest, GetTaskRequest,
    ListTaskPushNotificationConfigsRequest, ListTasksRequest, Message, SendMessageConfiguration,
    SendMessageRequest, StreamResponse, SubscribeToTaskRequest, TaskPushNotificationConfig,
};

verus! {

#[verifier::external_type_specification]
#[verifier::external_body]
pub struct ExReqwestError(reqwest::Error);

/// Errors that can occur while acting as an A2A client: transport-level
/// failures as well as [`A2aError`]s returned by the remote agent.
#[derive(Debug)]
pub enum ClientError {
    /// HTTP transport error.
    Transport(reqwest::Error),
    /// A2A protocol error returned by the agent.
    Protocol(A2aError),
    /// Failed to (de)serialize JSON.
    Json(serde_json::Error),
    /// Event stream error.
    Stream(String),
    /// The agent card declares no JSONRPC interface.
    NoJsonRpcInterface,
    /// The agent card declares no HTTP+JSON interface.
    NoRestInterface,
    /// An unexpected HTTP response.
    UnexpectedResponse { status: u16, body: String },
}

/// The `Major.Minor` A2A protocol version this library implements, sent as
/// the `A2A-Version` service parameter.
pub const PROTOCOL_VERSION: &'static str = "1.0";

/// The path at which an agent's card is served.
pub const AGENT_CARD_WELL_KNOWN_PATH: &'static str = "/.well-known/agent-card.json";

/// The protocol binding name of the JSON-RPC 2.0 binding.
pub const JSONRPC_BINDING: &'static str = "JSONRPC";

/// The protocol binding name of the HTTP+JSON/REST binding.
pub const HTTP_JSON_BINDING: &'static str = "HTTP+JSON";

/// The protocol binding name of the gRPC binding.
pub const GRPC_BINDING: &'static str = "GRPC";

fn clone_opt_string(o: &Option<String>) -> (r: Option<String>)
    ensures
        r == *o,
{
    match o {
        Some(s) => Some(s.clone()),
        None => None,
    }
}

/// What a client sends with every request, whatever its binding.
#[derive(Debug)]
pub struct ClientConfig {
    pub tenant: Option<String>,
    pub bearer_token: Option<String>,
    pub protocol_version: String,
    pub extensions: Vec<String>,
}

impl ClientConfig {
    /// No tenant, no token, no extensions, and this library's protocol
    /// version.
    pub fn new() -> (r: ClientConfig)
        ensures
            r.tenant is None,
            r.bearer_token is None,
            r.protocol_version@ == PROTOCOL_VERSION@,
            r.extensions@.len() == 0,
    {
        ClientConfig {
            tenant: None,
            bearer_token: None,
            protocol_version: String::from_str(PROTOCOL_VERSION),
            extensions: Vec::new(),
        }
    }

    /// Sets a bearer token sent with every request.
    pub fn with_bearer_token(self, token: String) -> (r: ClientConfig)
        ensures
            r.bearer_token == Some(token),
            r.tenant == self.tenant,
            r.protocol_version == self.protocol_version,
            r.extensions == self.extensions,
    {
        ClientConfig { bearer_token: Some(token), ..self }
    }

    /// Sets the tenant sent with every request.
    pub fn with_tenant(self, tenant: String) -> (r: ClientConfig)
        ensures
            r.tenant == Some(tenant),
            r.bearer_token == self.bearer_token,
            r.protocol_version == self.protocol_version,
            r.extensions == self.extensions,
    {
        ClientConfig { tenant: Some(tenant), ..self }
    }

    /// Sets the extensions declared with every request.
    pub fn with_extensions(self, extensions: Vec<String>) -> (r: ClientConfig)
        ensures
            r.extensions == extensions,
            r.tenant == self.tenant,
            r.bearer_token == self.bearer_token,
            r.protocol_version == self.protocol_version,
    {
        ClientConfig { extensions, ..self }
    }

    /// Overrides the protocol version sent with every request.
    pub fn with_protocol_version(self, version: String) -> (r: ClientConfig)
        ensures
            r.protocol_version == version,
            r.tenant == self.tenant,
            r.bearer_token == self.bearer_token,
            r.extensions == self.extensions,
    {
        ClientConfig { protocol_version: version, ..self }
    }

    /// The HTTP headers carrying the service parameters: the protocol
    /// version, the declared extensions joined by `,` when there are any,
    /// and the bearer token when there is one.
    pub fn http_headers(&self) -> (r: Vec<(String, String)>)
        ensures
            service_params_are(*self, false, r@),
    {
        self.service_params(false)
    }

    /// The gRPC metadata entries carrying the service parameters, under
    /// ASCII-lowercase keys as gRPC expects.
    pub fn grpc_metadata(&self) -> (r: Vec<(String, String)>)
        ensures
            service_params_are(*self, true, r@),
    {
        self.service_params(true)
    }

    fn service_params(&self, lowercase: bool) -> (r: Vec<(String, String)>)
        ensures
            service_params_are(*self, lowercase, r@),
    {
        let (version_key, extensions_key, auth_key) = if lowercase {
            ("a2a-version", "a2a-extensions", "authorization")
        } else {
            ("A2A-Version", "A2A-Extensions", "Authorization")
        };
        let mut out: Vec<(String, String)> = Vec::new();
        out.push((String::from_str(version_key), self.protocol_version.clone()));
        if self.extensions.len() > 0 {
            out.push((String::from_str(extensions_key), join(&self.extensions, ",")));
        }
        match &self.bearer_token {
            Some(token) => {
                out.push((String::from_str(auth_key), concat("Bearer ", token.as_str())));
            },
            None => {},
        }
        out
    }

    /// The `SendMessage` / `SendStreamingMessage` parameters for `message`.
    pub fn send_message_request(
        &self,
        message: Message,
        configuration: Option<SendMessageConfiguration>,
    ) -> (r: SendMessageRequest)
        ensures
            r.tenant == self.tenant,
            r.message == message,
            r.configuration == configuration,
            r.metadata is None,
    {
        SendMessageRequest { tenant: clone_opt_string(&self.tenant), message, configuration, metadata: None }
    }

    /// The `GetTask` parameters.
    pub fn get_task_request(&self, id: String, history_length: Option<i32>) -> (r: GetTaskRequest)
        ensures
            r.tenant == self.tenant,
            r.id == id,
            r.history_length == history_length,
    {
        GetTaskRequest { tenant: clone_opt_string(&self.tenant), id, history_length }
    }

    /// `req` addressed to this client's tenant.
    pub fn list_tasks_request(&self, req: ListTasksRequest) -> (r: ListTasksRequest)
        ensures
            r == (ListTasksRequest { tenant: self.tenant, ..req }),
    {
        ListTasksRequest { tenant: clone_opt_string(&self.tenant), ..req }
    }

    /// The `CancelTask` parameters.
    pub fn cancel_task_request(&self, id: String) -> (r: CancelTaskRequest)
        ensures
            r.tenant == self.tenant,
            r.id == id,
            r.metadata is None,
    {
        CancelTaskRequest { tenant: clone_opt_string(&self.tenant), id, metadata: None }
    }

    /// The `SubscribeToTask` parameters.
    pub fn subscribe_request(&self, id: String) -> (r: SubscribeToTaskRequest)
        ensures
            r.tenant == self.tenant,
            r.id == id,
    {
        SubscribeToTaskRequest { tenant: clone_opt_string(&self.tenant), id }
    }

    /// `config` addressed to this client's tenant, as the JSON-RPC and gRPC
    /// bindings create it.
    pub fn push_config_to_create(&self, config: TaskPushNotificationConfig) -> (r: TaskPushNotificationConfig)
        ensures
            r == (TaskPushNotificationConfig { tenant: self.tenant, ..config }),
    {
        TaskPushNotificationConfig { tenant: clone_opt_string(&self.tenant), ..config }
    }

    /// `config` addressed to this client's tenant and to `task_id`, as the
    /// REST binding creates it: the task id comes from the path, so it is
    /// set rather than trusted to match.
    pub fn rest_push_config_to_create(&self, task_id: &str, config: TaskPushNotificationConfig) -> (r:
        TaskPushNotificationConfig)
        ensures
            r.tenant == self.tenant,
            r.task_id is Some && r.task_id->0@ == task_id@,
            r.id == config.id,
            r.url == config.url,
            r.token == config.token,
            r.authentication == config.authentication,
    {
        TaskPushNotificationConfig {
            tenant: clone_opt_string(&self.tenant),
            task_id: Some(String::from_str(task_id)),
            ..config
        }
    }

    /// The `GetTaskPushNotificationConfig` parameters.
    pub fn get_push_config_request(&self, task_id: String, id: String) -> (r: GetTaskPushNotificationConfigRequest)
        ensures
            r.tenant == self.tenant,
            r.task_id == task_id,
            r.id == id,
    {
        GetTaskPushNotificationConfigRequest { tenant: clone_opt_string(&self.tenant), task_id, id }
    }

    /// The `DeleteTaskPushNotificationConfig` parameters.
    pub fn delete_push_config_request(&self, task_id: String, id: String) -> (r:
        DeleteTaskPushNotificationConfigRequest)
        ensures
            r.tenant == self.tenant,
            r.task_id == task_id,
            r.id == id,
    {
        DeleteTaskPushNotificationConfigRequest { tenant: clone_opt_string(&self.tenant), task_id, id }
    }

    /// The `ListTaskPushNotificationConfigs` parameters: the first page, at
    /// the server's page size.
    pub fn list_push_configs_request(&self, task_id: String) -> (r: ListTaskPushNotificationConfigsRequest)
        ensures
            r.tenant == self.tenant,
            r.task_id == task_id,
            r.page_size is None,
            r.page_token is None,
    {
        ListTaskPushNotificationConfigsRequest {
            tenant: clone_opt_string(&self.tenant),
            task_id,
            page_size: None,
            page_token: None,
        }
    }

    /// The `GetExtendedAgentCard` parameters.
    pub fn extended_card_request(&self) -> (r: GetExtendedAgentCardRequest)
        ensures
            r.tenant == self.tenant,
    {
        GetExtendedAgentCardRequest { tenant: clone_opt_string(&self.tenant) }
    }

    /// The gRPC `GetExtendedAgentCard` request: no tenant is the empty
    /// string.
    pub fn grpc_extended_card_request(&self) -> (r: pb::GetExtendedAgentCardRequest)
        ensures
            r.tenant@ == text_or_empty(self.tenant),
    {
        pb::GetExtendedAgentCardRequest { tenant: or_empty(clone_opt_string(&self.tenant)) }
    }
}

/// The keys of the three service parameters: version, extensions and
/// authorization, lowercase for gRPC.
pub open spec fn service_param_keys(lowercase: bool) -> Seq<Seq<char>> {
    if lowercase {
        seq!["a2a-version"@, "a2a-extensions"@, "authorization"@]
    } else {
        seq!["A2A-Version"@, "A2A-Extensions"@, "Authorization"@]
    }
}

/// One service parameter: its key and value text.
pub open spec fn param_is(p: (String, String), key: Seq<char>, value: Seq<char>) -> bool {
    p.0@ == key && p.1@ == value
}

/// `r` holds the service parameters a configuration sends, in order: the
/// protocol version; the extensions joined by `,`, when there are any;
/// `Bearer ` and the token, when there is one.
pub open spec fn service_params_are(c: ClientConfig, lowercase: bool, r: Seq<(String, String)>) -> bool {
    let keys = service_param_keys(lowercase);
    let n = 1 + (if c.extensions@.len() > 0 {
        1int
    } else {
        0int
    }) + (if c.bearer_token is Some {
        1int
    } else {
        0int
    });
    &&& r.len() == n
    &&& param_is(r[0], keys[0], c.protocol_version@)
    &&& c.extensions@.len() > 0 ==> param_is(r[1], keys[1], spec_join(texts(c.extensions@), ","@))
    &&& c.bearer_token is Some ==> param_is(r[n - 1], keys[2], "Bearer "@ + c.bearer_token->0@)
}

// --- choosing an interface ---

/// `k` is the position of the first interface serving `binding`.
pub open spec fn first_interface_for(ifaces: Seq<AgentInterface>, binding: Seq<char>, k: int) -> bool {
    &&& 0 <= k < ifaces.len()
    &&& ifaces[k].protocol_binding@ == binding
    &&& forall|j: int| 0 <= j < k ==> (#[trigger] ifaces[j]).protocol_binding@ != binding
}

/// Some interface serves `binding`.
pub open spec fn serves_binding(ifaces: Seq<AgentInterface>, binding: Seq<char>) -> bool {
    exists|k: int| 0 <= k < ifaces.len() && (#[trigger] ifaces[k]).protocol_binding@ == binding
}

impl AgentCard {
    /// The first interface the card declares for `binding`.
    pub fn interface_for_binding(&self, binding: &str) -> (r: Option<&AgentInterface>)
        ensures
            r is Some <==> serves_binding(self.supported_interfaces@, binding@),
            r is Some ==> exists|k: int|
                first_interface_for(self.supported_interfaces@, binding@, k) && *r->0
                    == self.supported_interfaces@[k],
    {
        let mut i: usize = 0;
        while i < self.supported_interfaces.len()
            invariant
                i <= self.supported_interfaces@.len(),
                forall|j: int|
                    0 <= j < i ==> (#[trigger] self.supported_interfaces@[j]).protocol_binding@ != binding@,
            decreases self.supported_interfaces@.len() - i,
        {
            if str_eq(self.supported_interfaces[i].protocol_binding.as_str(), binding) {
                assert(first_interface_for(self.supported_interfaces@, binding@, i as int));
                return Some(&self.supported_interfaces[i]);
            }
            i += 1;
        }
        None
    }
}

/// The URL and tenant a client for `binding` takes from the card: those of
/// the first interface serving it; `missing` when none does.
pub fn interface_target(card: &AgentCard, binding: &str, missing: ClientError) -> (r: Result<
    (String, Option<String>),
    ClientError,
>)
    ensures
        r is Ok <==> serves_binding(card.supported_interfaces@, binding@),
        r is Ok ==> exists|k: int|
            first_interface_for(card.supported_interfaces@, binding@, k) && r->Ok_0.0
                == card.supported_interfaces@[k].url && r->Ok_0.1 == card.supported_interfaces@[k].tenant,
        r is Err ==> r->Err_0 == missing,
{
    match card.interface_for_binding(binding) {
        Some(interface) => Ok((interface.url.clone(), clone_opt_string(&interface.tenant))),
        None => Err(missing),
    }
}

/// The URL and tenant of the card's first JSON-RPC interface.
pub fn jsonrpc_target(card: &AgentCard) -> (r: Result<(String, Option<String>), ClientError>)
    ensures
        r is Ok <==> serves_binding(card.supported_interfaces@, JSONRPC_BINDING@),
        r is Ok ==> exists|k: int|
            first_interface_for(card.supported_interfaces@, JSONRPC_BINDING@, k) && r->Ok_0.0
                == card.supported_interfaces@[k].url && r->Ok_0.1 == card.supported_interfaces@[k].tenant,
        r is Err ==> r->Err_0 is NoJsonRpcInterface,
{
    interface_target(card, JSONRPC_BINDING, ClientError::NoJsonRpcInterface)
}

/// The URL and tenant of the card's first HTTP+JSON interface.
pub fn rest_target(card: &AgentCard) -> (r: Result<(String, Option<String>), ClientError>)
    ensures
        r is Ok <==> serves_binding(card.supported_interfaces@, HTTP_JSON_BINDING@),
        r is Ok ==> exists|k: int|
            first_interface_for(card.supported_interfaces@, HTTP_JSON_BINDING@, k) && r->Ok_0.0
                == card.supported_interfaces@[k].url && r->Ok_0.1 == card.supported_interfaces@[k].tenant,
        r is Err ==> r->Err_0 is NoRestInterface,
{
    interface_target(card, HTTP_JSON_BINDING, ClientError::NoRestInterface)
}

// --- URLs ---

/// Where an agent at `base_url` serves its card: the base URL without
/// trailing slashes, then the well-known path.
pub fn agent_card_url(base_url: &str) -> (r: String)
    ensures
        r@ == spec_trim_trailing_slashes(base_url@) + AGENT_CARD_WELL_KNOWN_PATH@,
{
    let mut url = trim_trailing_slashes(base_url);
    url.append(AGENT_CARD_WELL_KNOWN_PATH);
    url
}

/// The REST base URL a client keeps: the one given, without trailing
/// slashes.
pub fn rest_base_url(base_url: &str) -> (r: String)
    ensures
        r@ == spec_trim_trailing_slashes(base_url@),
{
    trim_trailing_slashes(base_url)
}

/// `path` under the REST base URL.
pub fn rest_url(base_url: &str, path: &str) -> (r: String)
    ensures
        r@ == base_url@ + path@,
{
    concat(base_url, path)
}

/// `GET /tasks/{id}`.
pub fn task_path(id: &str) -> (r: String)
    ensures
        r@ == "/tasks/"@ + id@,
{
    concat("/tasks/", id)
}

/// `POST /tasks/{id}:cancel`.
pub fn cancel_task_path(id: &str) -> (r: String)
    ensures
        r@ == "/tasks/"@ + id@ + ":cancel"@,
{
    let mut p = concat("/tasks/", id);
    p.append(":cancel");
    p
}

/// `POST /tasks/{id}:subscribe`.
pub fn subscribe_path(id: &str) -> (r: String)
    ensures
        r@ == "/tasks/"@ + id@ + ":subscribe"@,
{
    let mut p = concat("/tasks/", id);
    p.append(":subscribe");
    p
}

/// `/tasks/{id}/pushNotificationConfigs`.
pub fn push_configs_path(task_id: &str) -> (r: String)
    ensures
        r@ == "/tasks/"@ + task_id@ + "/pushNotificationConfigs"@,
{
    let mut p = concat("/tasks/", task_id);
    p.append("/pushNotificationConfigs");
    p
}

/// `/tasks/{id}/pushNotificationConfigs/{configId}`.
pub fn push_config_path(task_id: &str, id: &str) -> (r: String)
    ensures
        r@ == "/tasks/"@ + task_id@ + "/pushNotificationConfigs/"@ + id@,
{
    let mut p = concat("/tasks/", task_id);
    p.append("/pushNotificationConfigs/");
    p.append(id);
    p
}

// --- reading errors and streams ---

/// The client error a gRPC status stands for: the A2A error rebuilt from
/// the status name its code reads as, carrying the status message.
pub open spec fn status_error(status: RpcStatus) -> ClientError {
    ClientError::Protocol(spec_from_grpc_status_name(spec_status_name_for_code(status.code), status.message))
}

/// The client error a gRPC status stands for. The code is all there is to
/// go on, so the A2A error is rebuilt from the status name the code reads
/// as, carrying the status message.
pub fn status_to_error(status: RpcStatus) -> (r: ClientError)
    ensures
        r == status_error(status),
        !names_a2a_category(status.code) ==> r == ClientError::Protocol(A2aError::Internal(status.message)),
        (r matches ClientError::Protocol(A2aError::TaskNotFound(m)) && m == status.message) <==> status.code
            == GrpcCode::NotFound,
{
    proof {
        lemma_client_reads_status_codes(status);
    }
    let name = status_name_for_code(status.code);
    ClientError::Protocol(A2aError::from_grpc_status_name(name, status.message))
}

/// A gRPC call's outcome as a client reports it: a value as it came, a
/// status as the client error it stands for.
pub fn grpc_result<T>(outcome: Result<T, RpcStatus>) -> (r: Result<T, ClientError>)
    ensures
        match outcome {
            Ok(v) => r == Ok::<T, ClientError>(v),
            Err(s) => r == Err::<T, ClientError>(status_error(s)),
        },
{
    match outcome {
        Ok(v) => Ok(v),
        Err(s) => Err(status_to_error(s)),
    }
}

/// One item of a gRPC event stream as a client hands it on: a status the
/// stream failed with is the client error it stands for, and so is the
/// status an unreadable event is refused with; a readable event is read.
pub fn grpc_stream_item(item: Result<pb::StreamResponse, RpcStatus>) -> (r: Result<StreamResponse, ClientError>)
    ensures
        match item {
            Err(s) => r == Err::<StreamResponse, ClientError>(status_error(s)),
            Ok(w) => {
                &&& r is Ok <==> stream_response_readable(w)
                &&& r is Ok ==> read_stream_response(w, r->Ok_0)
                &&& r is Err ==> exists|s: RpcStatus| #[trigger] stream_response_error(w, s) && r->Err_0 == status_error(s)
            },
        },
{
    match item {
        Err(s) => Err(status_to_error(s)),
        Ok(w) => {
            let ghost wire = w;
            match pb_stream_response_to_ours(w) {
                Ok(event) => Ok(event),
                Err(s) => {
                    assert(stream_response_error(wire, s));
                    Err(status_to_error(s))
                },
            }
        },
    }
}

/// What a `google.rpc.Status` error body holds: its `error` object, when
/// the body has one.
#[derive(Debug)]
pub struct RestErrorBody {
    pub error: Option<RestErrorObject>,
}

/// The parts of a `google.rpc.Status` error object a client reads: its
/// `message` and `status` strings and the `reason` of its first detail,
/// each absent when missing or not a string.
#[derive(Debug)]
pub struct RestErrorObject {
    pub message: Option<String>,
    pub status: Option<String>,
    pub first_detail_reason: Option<String>,
}

/// The A2A error an error object names, carrying the message `m`: by its
/// `ErrorInfo.reason` when it has one, otherwise by its status name
/// (`INTERNAL` when absent).
pub open spec fn rest_error_for(obj: RestErrorObject, m: String) -> A2aError {
    match obj.first_detail_reason {
        Some(reason) => spec_from_reason(reason@, m),
        None => spec_from_grpc_status_name(
            match obj.status {
                Some(n) => n@,
                None => "INTERNAL"@,
            },
            m,
        ),
    }
}

/// `r` is the error a REST client reports for an unsuccessful response
/// with HTTP status `status` and body `body`, of which `parsed` is the JSON
/// reading (`None` when the body is not JSON): the A2A error the body's
/// error object names, or, for a body not shaped like a `Status`, the
/// response itself.
pub open spec fn rest_error_is(status: u16, body: String, parsed: Option<RestErrorBody>, r: ClientError) -> bool {
    match parsed {
        Some(RestErrorBody { error: Some(obj) }) => r matches ClientError::Protocol(e) && exists|m: String|
            m@ == text_or_empty(obj.message) && e == #[trigger] rest_error_for(obj, m),
        _ => r == ClientError::UnexpectedResponse { status, body },
    }
}

/// The error a REST client reports for an unsuccessful response with HTTP
/// status `status` and body `body`, of which `parsed` is the JSON reading
/// (`None` when the body is not JSON). The `ErrorInfo.reason` names the
/// A2A error exactly; without one, the status name stands in (`INTERNAL`
/// when absent). A body not shaped like a `Status` is reported as an
/// unexpected response, not guessed at.
pub fn rest_error(status: u16, body: String, parsed: Option<RestErrorBody>) -> (r: ClientError)
    ensures
        rest_error_is(status, body, parsed, r),
{
    let obj = match parsed {
        Some(RestErrorBody { error: Some(obj) }) => obj,
        _ => return ClientError::UnexpectedResponse { status, body },
    };
    let ghost o = obj;
    let message = or_empty(obj.message);
    let ghost m = message;
    let e = match obj.first_detail_reason {
        Some(reason) => A2aError::from_reason(reason.as_str(), message),
        None => match obj.status {
            Some(name) => A2aError::from_grpc_status_name(name.as_str(), message),
            None => A2aError::from_grpc_status_name("INTERNAL", message),
        },
    };
    assert(e == rest_error_for(o, m));
    ClientError::Protocol(e)
}

/// The text of the string member `key` of a JSON object: `None` when the
/// member is missing or is not a string.
pub open spec fn spec_string_member(v: JsonValue, key: Seq<char>) -> Option<Seq<char>> {
    match json_member_of(v, key) {
        Some(m) => json_string_of(m),
        None => None,
    }
}

/// The string member `key` of a JSON object, if it has one.
fn string_member(v: &JsonValue, key: &str) -> (r: Option<String>)
    ensures
        opt_string_view(r) == spec_string_member(*v, key@),
{
    match json_member(v, key) {
        Some(m) => json_string(m),
        None => None,
    }
}

/// The `reason` text of the first entry of the `details` array of the
/// error object `e`: `None` when there is no such array, it is empty, or
/// its first entry has no string `reason`.
pub open spec fn spec_first_detail_reason(e: JsonValue) -> Option<Seq<char>> {
    match json_member_of(e, "details"@) {
        Some(details) => match json_array_of(details) {
            Some(items) => if items.len() > 0 {
                spec_string_member(items[0], "reason"@)
            } else {
                None
            },
            None => None,
        },
        None => None,
    }
}

/// `b` is what a client reads of the JSON value `v` as a
/// `google.rpc.Status` body: an error object exactly when `v` has an
/// `error` member, holding that member's `message` and `status` strings and
/// the `reason` of its first detail.
pub open spec fn reads_error_body(v: JsonValue, b: RestErrorBody) -> bool {
    match json_member_of(v, "error"@) {
        None => b.error is None,
        Some(e) => b.error matches Some(obj) && opt_string_view(obj.message) == spec_string_member(
            e,
            "message"@,
        ) && opt_string_view(obj.status) == spec_string_member(e, "status"@) && opt_string_view(
            obj.first_detail_reason,
        ) == spec_first_detail_reason(e),
    }
}

/// The `reason` string of the first entry of an error object's `details`.
fn first_detail_reason(error: &JsonValue) -> (r: Option<String>)
    ensures
        opt_string_view(r) == spec_first_detail_reason(*error),
{
    match json_member(error, "details") {
        Some(details) => match json_array(details) {
            Some(items) => {
                if items.len() > 0 {
                    string_member(&items[0], "reason")
                } else {
                    None
                }
            },
            None => None,
        },
        None => None,
    }
}

/// Reads a `google.rpc.Status` error body: its `error` member and, of
/// that, the `message` and `status` strings and the `reason` string of the
/// first entry of `details`. `None` when the text is not JSON.
pub fn read_rest_error_body(text: &str) -> (r: Option<RestErrorBody>)
    ensures
        r is Some <==> json_text_value(text@) is Some,
        r is Some ==> reads_error_body(json_text_value(text@)->0, r->0),
{
    let value = match parse_json(text) {
        Some(v) => v,
        None => return None,
    };
    let error = match json_member(&value, "error") {
        Some(error) => error,
        None => return Some(RestErrorBody { error: None }),
    };
    Some(
        RestErrorBody {
            error: Some(
                RestErrorObject {
                    message: string_member(error, "message"),
                    status: string_member(error, "status"),
                    first_detail_reason: first_detail_reason(error),
                },
            ),
        },
    )
}

/// `r` is the error a REST client reports for an unsuccessful response with
/// HTTP status `status` and body text `body`: an unexpected response when
/// the body is not JSON, otherwise what [`rest_error`] decides on the
/// body's reading.
pub open spec fn rest_error_from_body_is(status: u16, body: String, r: ClientError) -> bool {
    match json_text_value(body@) {
        None => r == ClientError::UnexpectedResponse { status, body },
        Some(v) => exists|b: RestErrorBody|
            #[trigger] reads_error_body(v, b) && rest_error_is(status, body, Some(b), r),
    }
}

/// The error a REST client reports for an unsuccessful response with HTTP
/// status `status` and body text `body`: the body is read as a
/// `google.rpc.Status` and decided on by [`rest_error`]. A body that is not
/// JSON is an unexpected response.
pub fn rest_error_from_body(status: u16, body: String) -> (r: ClientError)
    ensures
        rest_error_from_body_is(status, body, r),
{
    let parsed = read_rest_error_body(body.as_str());
    let ghost p = parsed;
    let r = rest_error(status, body, parsed);
    assert(rest_error_is(status, body, p, r));
    proof {
        if p is Some {
            assert(reads_error_body(json_text_value(body@)->0, p->0));
        }
    }
    r
}

/// Whether a response's content type announces a server-sent event stream.
pub fn is_event_stream(content_type: Option<&str>) -> (r: bool)
    ensures
        r == match content_type {
            Some(ct) => "text/event-stream"@.len() <= ct@.len() && ct@.take(
                "text/event-stream"@.len() as int,
            ) == "text/event-stream"@,
            None => false,
        },
{
    match content_type {
        Some(ct) => starts_with(ct, "text/event-stream"),
        None => false,
    }
}

/// The error a REST client reports when a stream was asked for and an
/// ordinary response came back: a request refused before streaming starts
/// would otherwise look like an empty stream.
pub fn rest_not_a_stream(status: u16, body: &str) -> (r: ClientError)
    ensures
        r matches ClientError::UnexpectedResponse { status: s, body: b } && s == status && b@
            == "expected an SSE stream, got: "@ + body@,
{
    ClientError::UnexpectedResponse { status, body: concat("expected an SSE stream, got: ", body) }
}

/// Whether an HTTP status code reports success: `200..=299`, as
/// `http::StatusCode::is_success` reads it.
pub fn is_success_status(status: u16) -> (r: bool)
    ensures
        r == (200 <= status && status < 300),
{
    200 <= status && status < 300
}

/// A JSON-RPC 2.0 error object: its code and message.
#[derive(Debug)]
pub struct JsonRpcErrorObject {
    pub code: i64,
    pub message: String,
}

/// What a JSON-RPC response reports: the A2A error its error object stands
/// for when it carries one, otherwise its result (`null` when the response
/// has no `result` member).
pub fn jsonrpc_outcome(error: Option<JsonRpcErrorObject>, result: JsonValue) -> (r: Result<JsonValue, A2aError>)
    ensures
        match error {
            Some(e) => r == Err::<JsonValue, A2aError>(spec_jsonrpc_error_to_a2a(e.code as int, e.message)),
            None => r == Ok::<JsonValue, A2aError>(result),
        },
{
    match error {
        Some(e) => Err(jsonrpc_error_to_a2a(e.code, e.message)),
        None => Ok(result),
    }
}

/// The error a JSON-RPC client reports when a stream was asked for and an
/// ordinary JSON-RPC response came back: the agent's error when it sent
/// one, otherwise an unexpected response.
pub fn jsonrpc_not_a_stream(status: u16, reply: Result<serde_json::Value, A2aError>) -> (r: ClientError)
    ensures
        match reply {
            Ok(_) => r matches ClientError::UnexpectedResponse { status: s, body: b } && s == status
                && b@ == "expected an SSE stream but got a non-streaming success response"@,
            Err(e) => r == ClientError::Protocol(e),
        },
{
    match reply {
        Ok(_) => ClientError::UnexpectedResponse {
            status,
            body: String::from_str("expected an SSE stream but got a non-streaming success response"),
        },
        Err(e) => ClientError::Protocol(e),
    }
}

/// Whether a server-sent event carries an event (an event with empty data
/// is skipped).
pub fn sse_event_has_data(data: &str) -> (r: bool)
    ensures
        r == (data@.len() > 0),
{
    !data.is_empty()
}

// --- what a client reads of the errors a server answers with ---

/// Over gRPC, the error a client reads back from the status a server
/// answered an error with keeps the error's status category and carries
/// the wire message verbatim. Every error in the `FAILED_PRECONDITION`
/// category comes back as `UnsupportedOperation`; the variants that carry
/// their detail as the wire message and are their category's pick come
/// back as the very error (same variant, same detail).
pub proof fn lemma_grpc_error_round_trip(e: A2aError, status: RpcStatus)
    requires
        status.code == spec_code_for_status_name(spec_grpc_status_name(e)),
        status.message@ == spec_standard_message(e),
    ensures
        status_error(status) == ClientError::Protocol(
            spec_from_grpc_status_name(spec_status_name_for_code(status.code), status.message),
        ),
        spec_grpc_status_name(
            spec_from_grpc_status_name(spec_status_name_for_code(status.code), status.message),
        ) == spec_grpc_status_name(e),
        spec_detail(spec_from_grpc_status_name(spec_status_name_for_code(status.code), status.message))
            == Some(status.message),
        spec_grpc_status_name(e) == "FAILED_PRECONDITION"@ ==> spec_from_grpc_status_name(
            spec_status_name_for_code(status.code),
            status.message,
        ) is UnsupportedOperation,
        (e is TaskNotFound || e is UnsupportedOperation || e is Unauthenticated || e is PermissionDenied)
            ==> same_error(
            spec_from_grpc_status_name(spec_status_name_for_code(status.code), status.message),
            e,
        ),
{
    lemma_status_code_round_trip(e);
    lemma_grpc_status_name_preserved(e, status.message);
    if spec_grpc_status_name(e) == "FAILED_PRECONDITION"@ {
        reveal_strlit("NOT_FOUND");
        reveal_strlit("FAILED_PRECONDITION");
        assert("NOT_FOUND"@.len() != "FAILED_PRECONDITION"@.len());
    }
    if e is TaskNotFound || e is UnsupportedOperation || e is Unauthenticated || e is PermissionDenied {
        assert(opt_string_view(spec_detail(e)) == Some(status.message@));
        lemma_grpc_generic_variant_round_trip(e, status.message);
    }
}

/// Over REST, an A2A-specific error sent as its `ErrorInfo.reason` and its
/// wire message is read back by the client as the very error.
pub proof fn lemma_rest_error_round_trip(e: A2aError, obj: RestErrorObject, m: String)
    requires
        spec_reason(e) is Some,
        obj.first_detail_reason is Some,
        obj.first_detail_reason->0@ == spec_reason(e)->0,
        obj.message is Some,
        obj.message->0@ == spec_standard_message(e),
        m@ == text_or_empty(obj.message),
    ensures
        same_error(rest_error_for(obj, m), e),
{
    lemma_reason_round_trip(e, m);
}

/// Over REST, an A2A-specific error sent as a `google.rpc.Status` body (an
/// `error` object whose `message` is the error's wire message and whose
/// first detail's `reason` is the error's reason) is read back by the
/// client, from the body text, as the very error.
pub proof fn lemma_rest_body_round_trip(e: A2aError, status: u16, body: String, r: ClientError)
    requires
        spec_reason(e) is Some,
        json_text_value(body@) matches Some(v) && json_member_of(v, "error"@) matches Some(obj)
            && spec_string_member(obj, "message"@) == Some(spec_standard_message(e))
            && spec_first_detail_reason(obj) == Some(spec_reason(e)->0),
        rest_error_from_body_is(status, body, r),
    ensures
        r matches ClientError::Protocol(back) && same_error(back, e),
{
    let v = json_text_value(body@)->0;
    let b = choose|b: RestErrorBody| #[trigger] reads_error_body(v, b) && rest_error_is(status, body, Some(b), r);
    let obj = b.error->0;
    let m = choose|m: String| m@ == text_or_empty(obj.message) && r->Protocol_0 == #[trigger] rest_error_for(obj, m);
    lemma_rest_error_round_trip(e, obj, m);
}

/// A gRPC client reads a failed call's status by its code alone: every
/// code outside the six A2A categories is an `Internal` error carrying the
/// status message, and a `TaskNotFound` error comes from `NOT_FOUND` and
/// from no other code.
pub proof fn lemma_client_reads_status_codes(status: RpcStatus)
    ensures
        !names_a2a_category(status.code) ==> status_error(status) == ClientError::Protocol(
            A2aError::Internal(status.message),
        ),
        (status_error(status) matches ClientError::Protocol(A2aError::TaskNotFound(m)) && m == status.message)
            <==> status.code == GrpcCode::NotFound,
{
    lemma_status_names_of_codes(status.code);
    reveal_strlit("NOT_FOUND");
    reveal_strlit("INTERNAL");
    reveal_strlit("FAILED_PRECONDITION");
    reveal_strlit("INVALID_ARGUMENT");
    reveal_strlit("UNAUTHENTICATED");
    reveal_strlit("PERMISSION_DENIED");
    reveal_strlit("UNIMPLEMENTED");
    assert("NOT_FOUND"@.len() != "INTERNAL"@.len());
    assert("NOT_FOUND"@.len() != "FAILED_PRECONDITION"@.len());
    assert("NOT_FOUND"@.len() != "INVALID_ARGUMENT"@.len());
    assert("NOT_FOUND"@.len() != "UNAUTHENTICATED"@.len());
    assert("NOT_FOUND"@.len() != "PERMISSION_DENIED"@.len());
    assert("NOT_FOUND"@.len() != "UNIMPLEMENTED"@.len());
}

} // verus!
