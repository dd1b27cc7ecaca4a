//! The A2A protocol data model.
//!
//! Logically optional strings are `Option<String>`; maps keyed by a name are
//! lists of `(name, value)` entries in the order they were given.
use vstd::prelude::*;

use crate::json::{JsonObject, JsonValue};
use crate::time::UtcDateTime;

verus! {

/// The lifecycle state of a task.
#[derive(Debug, Clone, Copy, PartialEq, Eq)]
pub enum TaskState {
    Unspecified,
    Submitted,
    Working,
    Completed,
    Failed,
    Canceled,
    InputRequired,
    Rejected,
    AuthRequired,
}

/// The sender of a message.
#[derive(Debug, Clone, Copy, PartialEq, Eq)]
pub enum Role {
    Unspecified,
    User,
    Agent,
}

/// What a part carries.
#[derive(Debug, PartialEq)]
pub enum PartContent {
    Text { text: String },
    Raw { raw: Vec<u8> },
    Url { url: String },
    Data { data: JsonValue },
}

/// One piece of a message or artifact.
#[derive(Debug, PartialEq)]
pub struct Part {
    pub content: PartContent,
    pub metadata: Option<JsonObject>,
    pub filename: Option<String>,
    pub media_type: Option<String>,
}

/// A message exchanged between a client and an agent.
#[derive(Debug, PartialEq)]
pub struct Message {
    pub message_id: String,
    pub context_id: Option<String>,
    pub task_id: Option<String>,
    pub role: Role,
    pub parts: Vec<Part>,
    pub metadata: Option<JsonObject>,
    pub extensions: Vec<String>,
    pub reference_task_ids: Vec<String>,
}

/// The current status of a task.
#[derive(Debug, PartialEq)]
pub struct TaskStatus {
    pub state: TaskState,
    pub message: Option<Message>,
    pub timestamp: Option<UtcDateTime>,
}

/// An output produced by a task.
#[derive(Debug, PartialEq)]
pub struct Artifact {
    pub artifact_id: String,
    pub name: Option<String>,
    pub description: Option<String>,
    pub parts: Vec<Part>,
    pub metadata: Option<JsonObject>,
    pub extensions: Vec<String>,
}

/// A unit of work an agent performs.
#[derive(Debug, PartialEq)]
pub struct Task {
    pub id: String,
    pub context_id: Option<String>,
    pub status: TaskStatus,
    pub artifacts: Vec<Artifact>,
    pub history: Vec<Message>,
    pub metadata: Option<JsonObject>,
}

/// A change of a task's status, as streamed.
#[derive(Debug, PartialEq)]
pub struct TaskStatusUpdateEvent {
    pub task_id: String,
    pub context_id: String,
    pub status: TaskStatus,
    pub metadata: Option<JsonObject>,
}

/// A new or extended artifact, as streamed.
#[derive(Debug, PartialEq)]
pub struct TaskArtifactUpdateEvent {
    pub task_id: String,
    pub context_id: String,
    pub artifact: Artifact,
    pub append: bool,
    pub last_chunk: bool,
    pub metadata: Option<JsonObject>,
}

/// One event of a streaming response.
#[derive(Debug, PartialEq)]
pub enum StreamResponse {
    Task { task: Task },
    Message { message: Message },
    StatusUpdate { status_update: TaskStatusUpdateEvent },
    ArtifactUpdate { artifact_update: TaskArtifactUpdateEvent },
}

/// The result of `SendMessage`: a task, or a bare message reply.
#[derive(Debug, PartialEq)]
pub enum SendMessageResult {
    Task { task: Task },
    Message { message: Message },
}

/// Credentials for delivering push notifications.
#[derive(Debug, PartialEq)]
pub struct AuthenticationInfo {
    pub scheme: String,
    pub credentials: Option<String>,
}

/// Where and how to deliver a task's push notifications.
#[derive(Debug, PartialEq)]
pub struct TaskPushNotificationConfig {
    pub tenant: Option<String>,
    pub id: Option<String>,
    pub task_id: Option<String>,
    pub url: String,
    pub token: Option<String>,
    pub authentication: Option<AuthenticationInfo>,
}

/// A page of push notification configurations.
#[derive(Debug, PartialEq)]
pub struct ListTaskPushNotificationConfigsResponse {
    pub configs: Vec<TaskPushNotificationConfig>,
    pub next_page_token: String,
}

/// A page of tasks.
#[derive(Debug, PartialEq)]
pub struct ListTasksResponse {
    pub tasks: Vec<Task>,
    pub next_page_token: String,
    pub page_size: i32,
    pub total_size: i32,
}

/// Options of a `SendMessage` request.
#[derive(Debug, PartialEq)]
pub struct SendMessageConfiguration {
    pub accepted_output_modes: Vec<String>,
    pub task_push_notification_config: Option<TaskPushNotificationConfig>,
    pub history_length: Option<i32>,
    pub return_immediately: bool,
}

/// `SendMessage` / `SendStreamingMessage` parameters.
#[derive(Debug, PartialEq)]
pub struct SendMessageRequest {
    pub tenant: Option<String>,
    pub message: Message,
    pub configuration: Option<SendMessageConfiguration>,
    pub metadata: Option<JsonObject>,
}

/// `GetTask` parameters.
#[derive(Debug, PartialEq)]
pub struct GetTaskRequest {
    pub tenant: Option<String>,
    pub id: String,
    pub history_length: Option<i32>,
}

/// `ListTasks` parameters.
#[derive(Debug, PartialEq)]
pub struct ListTasksRequest {
    pub tenant: Option<String>,
    pub context_id: Option<String>,
    pub status: Option<TaskState>,
    pub page_size: Option<i32>,
    pub page_token: Option<String>,
    pub history_length: Option<i32>,
    pub status_timestamp_after: Option<UtcDateTime>,
    pub include_artifacts: Option<bool>,
}

/// `CancelTask` parameters.
#[derive(Debug, PartialEq)]
pub struct CancelTaskRequest {
    pub tenant: Option<String>,
    pub id: String,
    pub metadata: Option<JsonObject>,
}

/// `SubscribeToTask` parameters.
#[derive(Debug, PartialEq)]
pub struct SubscribeToTaskRequest {
    pub tenant: Option<String>,
    pub id: String,
}

/// `GetTaskPushNotificationConfig` parameters.
#[derive(Debug, PartialEq)]
pub struct GetTaskPushNotificationConfigRequest {
    pub tenant: Option<String>,
    pub task_id: String,
    pub id: String,
}

/// `DeleteTaskPushNotificationConfig` parameters.
#[derive(Debug, PartialEq)]
pub struct DeleteTaskPushNotificationConfigRequest {
    pub tenant: Option<String>,
    pub task_id: String,
    pub id: String,
}

/// `ListTaskPushNotificationConfigs` parameters.
#[derive(Debug, PartialEq)]
pub struct ListTaskPushNotificationConfigsRequest {
    pub tenant: Option<String>,
    pub task_id: String,
    pub page_size: Option<i32>,
    pub page_token: Option<String>,
}

/// `GetExtendedAgentCard` parameters.
#[derive(Debug, PartialEq)]
pub struct GetExtendedAgentCardRequest {
    pub tenant: Option<String>,
}

/// One endpoint at which an agent serves a protocol binding.
#[derive(Debug, PartialEq)]
pub struct AgentInterface {
    pub url: String,
    pub protocol_binding: String,
    pub tenant: Option<String>,
    pub protocol_version: String,
}

/// The organization behind an agent.
#[derive(Debug, PartialEq)]
pub struct AgentProvider {
    pub url: String,
    pub organization: String,
}

/// A protocol extension an agent supports.
#[derive(Debug, PartialEq)]
pub struct AgentExtension {
    pub uri: String,
    pub description: String,
    pub required: bool,
    pub params: Option<JsonObject>,
}

/// Optional capabilities an agent declares.
#[derive(Debug, PartialEq)]
pub struct AgentCapabilities {
    pub streaming: Option<bool>,
    pub push_notifications: Option<bool>,
    pub extensions: Vec<AgentExtension>,
    pub extended_agent_card: Option<bool>,
}

/// A list of scope names.
#[derive(Debug, PartialEq)]
pub struct StringList {
    pub list: Vec<String>,
}

/// Security schemes (by name) that together satisfy a requirement, each
/// with the scopes it needs.
#[derive(Debug, PartialEq)]
pub struct SecurityRequirement {
    pub schemes: Vec<(String, StringList)>,
}

/// A capability an agent offers.
#[derive(Debug, PartialEq)]
pub struct AgentSkill {
    pub id: String,
    pub name: String,
    pub description: String,
    pub tags: Vec<String>,
    pub examples: Vec<String>,
    pub input_modes: Vec<String>,
    pub output_modes: Vec<String>,
    pub security_requirements: Vec<SecurityRequirement>,
}

/// A JWS signature over an agent card.
#[derive(Debug, PartialEq)]
pub struct AgentCardSignature {
    pub protected: String,
    pub signature: String,
    pub header: Option<JsonObject>,
}

/// API key authentication.
#[derive(Debug, PartialEq)]
pub struct ApiKeySecurityScheme {
    pub description: Option<String>,
    pub location: String,
    pub name: String,
}

/// HTTP authentication.
#[derive(Debug, PartialEq)]
pub struct HttpAuthSecurityScheme {
    pub description: Option<String>,
    pub scheme: String,
    pub bearer_format: Option<String>,
}

/// OpenID Connect authentication.
#[derive(Debug, PartialEq)]
pub struct OpenIdConnectSecurityScheme {
    pub description: Option<String>,
    pub open_id_connect_url: String,
}

/// Mutual TLS authentication.
#[derive(Debug, PartialEq)]
pub struct MutualTlsSecurityScheme {
    pub description: Option<String>,
}

/// OAuth 2.0 authorization code flow.
#[derive(Debug, PartialEq)]
pub struct AuthorizationCodeOAuthFlow {
    pub authorization_url: String,
    pub token_url: String,
    pub refresh_url: Option<String>,
    pub scopes: Vec<(String, String)>,
    pub pkce_required: bool,
}

/// OAuth 2.0 client credentials flow.
#[derive(Debug, PartialEq)]
pub struct ClientCredentialsOAuthFlow {
    pub token_url: String,
    pub refresh_url: Option<String>,
    pub scopes: Vec<(String, String)>,
}

/// OAuth 2.0 implicit flow.
#[derive(Debug, PartialEq)]
pub struct ImplicitOAuthFlow {
    pub authorization_url: String,
    pub refresh_url: Option<String>,
    pub scopes: Vec<(String, String)>,
}

/// OAuth 2.0 resource owner password flow.
#[derive(Debug, PartialEq)]
pub struct PasswordOAuthFlow {
    pub token_url: String,
    pub refresh_url: Option<String>,
    pub scopes: Vec<(String, String)>,
}

/// OAuth 2.0 device authorization flow.
#[derive(Debug, PartialEq)]
pub struct DeviceCodeOAuthFlow {
    pub device_authorization_url: String,
    pub token_url: String,
    pub refresh_url: Option<String>,
    pub scopes: Vec<(String, String)>,
}

/// The one OAuth 2.0 flow a scheme uses.
#[derive(Debug, PartialEq)]
pub enum OAuthFlows {
    AuthorizationCode { authorization_code: AuthorizationCodeOAuthFlow },
    ClientCredentials { client_credentials: ClientCredentialsOAuthFlow },
    Implicit { implicit: ImplicitOAuthFlow },
    Password { password: PasswordOAuthFlow },
    DeviceCode { device_code: DeviceCodeOAuthFlow },
}

/// OAuth 2.0 authentication.
#[derive(Debug, PartialEq)]
pub struct OAuth2SecurityScheme {
    pub description: Option<String>,
    pub flows: OAuthFlows,
    pub oauth2_metadata_url: Option<String>,
}

/// A way of authenticating to an agent.
#[derive(Debug, PartialEq)]
pub enum SecurityScheme {
    ApiKey { api_key_security_scheme: ApiKeySecurityScheme },
    HttpAuth { http_auth_security_scheme: HttpAuthSecurityScheme },
    OAuth2 { oauth2_security_scheme: OAuth2SecurityScheme },
    OpenIdConnect { open_id_connect_security_scheme: OpenIdConnectSecurityScheme },
    MutualTls { mtls_security_scheme: MutualTlsSecurityScheme },
}

/// An agent's self-description.
#[derive(Debug, PartialEq)]
pub struct AgentCard {
    pub name: String,
    pub description: String,
    pub supported_interfaces: Vec<AgentInterface>,
    pub provider: Option<AgentProvider>,
    pub version: String,
    pub documentation_url: Option<String>,
    pub capabilities: AgentCapabilities,
    pub security_schemes: Vec<(String, SecurityScheme)>,
    pub security_requirements: Vec<SecurityRequirement>,
    pub default_input_modes: Vec<String>,
    pub default_output_modes: Vec<String>,
    pub skills: Vec<AgentSkill>,
    pub signatures: Vec<AgentCardSignature>,
    pub icon_url: Option<String>,
}

/// No optional capability declared, and no extensions.
pub open spec fn spec_default_capabilities(c: AgentCapabilities) -> bool {
    &&& c.streaming is None
    &&& c.push_notifications is None
    &&& c.extensions@.len() == 0
    &&& c.extended_agent_card is None
}

impl Default for AgentCapabilities {
    fn default() -> (r: AgentCapabilities)
        ensures
            spec_default_capabilities(r),
    {
        AgentCapabilities {
            streaming: None,
            push_notifications: None,
            extensions: Vec::new(),
            extended_agent_card: None,
        }
    }
}

/// No name occurs twice among the entries of a name-keyed map.
pub open spec fn keys_distinct<V>(entries: Seq<(String, V)>) -> bool {
    forall|i: int, j: int|
        0 <= i < entries.len() && 0 <= j < entries.len() && i != j ==> (#[trigger] entries[i]).0@
            != (#[trigger] entries[j]).0@
}

/// The scopes (name and description) of an OAuth 2.0 flow.
pub open spec fn flow_scopes(f: OAuthFlows) -> Seq<(String, String)> {
    match f {
        OAuthFlows::AuthorizationCode { authorization_code: a } => a.scopes@,
        OAuthFlows::ClientCredentials { client_credentials: a } => a.scopes@,
        OAuthFlows::Implicit { implicit: a } => a.scopes@,
        OAuthFlows::Password { password: a } => a.scopes@,
        OAuthFlows::DeviceCode { device_code: a } => a.scopes@,
    }
}

/// A scheme's scope names are distinct (only an OAuth 2.0 scheme has
/// scopes).
pub open spec fn scheme_scopes_distinct(s: SecurityScheme) -> bool {
    match s {
        SecurityScheme::OAuth2 { oauth2_security_scheme: o } => keys_distinct(flow_scopes(o.flows)),
        _ => true,
    }
}

/// Every name-keyed map in a card has distinct names, as a map does: its
/// security schemes, the scopes of each scheme, and the schemes of each
/// requirement.
pub open spec fn card_keys_distinct(c: AgentCard) -> bool {
    &&& keys_distinct(c.security_schemes@)
    &&& forall|i: int|
        0 <= i < c.security_schemes@.len() ==> scheme_scopes_distinct(
            (#[trigger] c.security_schemes@[i]).1,
        )
    &&& forall|i: int|
        0 <= i < c.security_requirements@.len() ==> keys_distinct(
            (#[trigger] c.security_requirements@[i]).schemes@,
        )
    &&& forall|i: int|
        0 <= i < c.skills@.len() ==> forall|j: int|
            0 <= j < (#[trigger] c.skills@[i]).security_requirements@.len() ==> keys_distinct(
                (#[trigger] c.skills@[i].security_requirements@[j]).schemes@,
            )
}

} // verus!
