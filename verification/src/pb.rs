//! The gRPC binding's wire messages (the `lf.a2a.v1` protocol buffers).
//!
//! Proto3 plain `string` and enum fields cannot be absent: unset reads as
//! `""` or as the enum's zero. `optional` fields and message fields are
//! `Option`s, `oneof`s are an `Option` of an enum, enums travel as their
//! `i32` numbers, `map` fields are lists of `(key, value)` entries, and
//! `google.protobuf.Struct`/`Value` are carried in their JSON form.
use vstd::prelude::*;

use crate::json::{JsonObject, JsonValue};

verus! {

/// `lf.a2a.v1.TaskState`.
#[derive(Debug, Clone, Copy, PartialEq, Eq)]
pub enum TaskState {
    Unspecified,
    Submitted,
    Working,
    Completed,
    Failed,
    Canceled,
    InputRequired,
    Rejected,
    AuthRequired,
}

/// The wire number of each task state.
pub open spec fn spec_task_state_number(s: TaskState) -> i32 {
    match s {
        TaskState::Unspecified => 0,
        TaskState::Submitted => 1,
        TaskState::Working => 2,
        TaskState::Completed => 3,
        TaskState::Failed => 4,
        TaskState::Canceled => 5,
        TaskState::InputRequired => 6,
        TaskState::Rejected => 7,
        TaskState::AuthRequired => 8,
    }
}

/// The task state a wire number names, if it names one.
pub open spec fn spec_task_state_from_number(n: i32) -> Option<TaskState> {
    if n == 0 {
        Some(TaskState::Unspecified)
    } else if n == 1 {
        Some(TaskState::Submitted)
    } else if n == 2 {
        Some(TaskState::Working)
    } else if n == 3 {
        Some(TaskState::Completed)
    } else if n == 4 {
        Some(TaskState::Failed)
    } else if n == 5 {
        Some(TaskState::Canceled)
    } else if n == 6 {
        Some(TaskState::InputRequired)
    } else if n == 7 {
        Some(TaskState::Rejected)
    } else if n == 8 {
        Some(TaskState::AuthRequired)
    } else {
        None
    }
}

impl TaskState {
    /// The state's wire number.
    pub fn number(self) -> (r: i32)
        ensures
            r == spec_task_state_number(self),
    {
        match self {
            TaskState::Unspecified => 0,
            TaskState::Submitted => 1,
            TaskState::Working => 2,
            TaskState::Completed => 3,
            TaskState::Failed => 4,
            TaskState::Canceled => 5,
            TaskState::InputRequired => 6,
            TaskState::Rejected => 7,
            TaskState::AuthRequired => 8,
        }
    }

    /// The state a wire number names; `None` for an unknown number.
    pub fn from_number(n: i32) -> (r: Option<TaskState>)
        ensures
            r == spec_task_state_from_number(n),
    {
        if n == 0 {
            Some(TaskState::Unspecified)
        } else if n == 1 {
            Some(TaskState::Submitted)
        } else if n == 2 {
            Some(TaskState::Working)
        } else if n == 3 {
            Some(TaskState::Completed)
        } else if n == 4 {
            Some(TaskState::Failed)
        } else if n == 5 {
            Some(TaskState::Canceled)
        } else if n == 6 {
            Some(TaskState::InputRequired)
        } else if n == 7 {
            Some(TaskState::Rejected)
        } else if n == 8 {
            Some(TaskState::AuthRequired)
        } else {
            None
        }
    }
}

/// `lf.a2a.v1.Role`.
#[derive(Debug, Clone, Copy, PartialEq, Eq)]
pub enum Role {
    Unspecified,
    User,
    Agent,
}

/// The wire number of each role.
pub open spec fn spec_role_number(r: Role) -> i32 {
    match r {
        Role::Unspecified => 0,
        Role::User => 1,
        Role::Agent => 2,
    }
}

/// The role a wire number names, if it names one.
pub open spec fn spec_role_from_number(n: i32) -> Option<Role> {
    if n == 0 {
        Some(Role::Unspecified)
    } else if n == 1 {
        Some(Role::User)
    } else if n == 2 {
        Some(Role::Agent)
    } else {
        None
    }
}

impl Role {
    /// The role's wire number.
    pub fn number(self) -> (r: i32)
        ensures
            r == spec_role_number(self),
    {
        match self {
            Role::Unspecified => 0,
            Role::User => 1,
            Role::Agent => 2,
        }
    }

    /// The role a wire number names; `None` for an unknown number.
    pub fn from_number(n: i32) -> (r: Option<Role>)
        ensures
            r == spec_role_from_number(n),
    {
        if n == 0 {
            Some(Role::Unspecified)
        } else if n == 1 {
            Some(Role::User)
        } else if n == 2 {
            Some(Role::Agent)
        } else {
            None
        }
    }
}

/// `google.protobuf.Timestamp`.
#[derive(Debug, Clone, Copy, PartialEq, Eq)]
pub struct Timestamp {
    pub seconds: i64,
    pub nanos: i32,
}

/// The `content` oneof of `Part`.
#[derive(Debug, PartialEq)]
pub enum PartContent {
    Text(String),
    Raw(Vec<u8>),
    Url(String),
    Data(JsonValue),
}

/// `lf.a2a.v1.Part`.
#[derive(Debug, PartialEq)]
pub struct Part {
    pub metadata: Option<JsonObject>,
    pub filename: String,
    pub media_type: String,
    pub content: Option<PartContent>,
}

/// `lf.a2a.v1.Message`.
#[derive(Debug, PartialEq)]
pub struct Message {
    pub message_id: String,
    pub context_id: String,
    pub task_id: String,
    pub role: i32,
    pub parts: Vec<Part>,
    pub metadata: Option<JsonObject>,
    pub extensions: Vec<String>,
    pub reference_task_ids: Vec<String>,
}

/// `lf.a2a.v1.TaskStatus`.
#[derive(Debug, PartialEq)]
pub struct TaskStatus {
    pub state: i32,
    pub message: Option<Message>,
    pub timestamp: Option<Timestamp>,
}

/// `lf.a2a.v1.Artifact`.
#[derive(Debug, PartialEq)]
pub struct Artifact {
    pub artifact_id: String,
    pub name: String,
    pub description: String,
    pub parts: Vec<Part>,
    pub metadata: Option<JsonObject>,
    pub extensions: Vec<String>,
}

/// `lf.a2a.v1.Task`.
#[derive(Debug, PartialEq)]
pub struct Task {
    pub id: String,
    pub context_id: String,
    pub status: Option<TaskStatus>,
    pub artifacts: Vec<Artifact>,
    pub history: Vec<Message>,
    pub metadata: Option<JsonObject>,
}

/// `lf.a2a.v1.TaskStatusUpdateEvent`.
#[derive(Debug, PartialEq)]
pub struct TaskStatusUpdateEvent {
    pub task_id: String,
    pub context_id: String,
    pub status: Option<TaskStatus>,
    pub metadata: Option<JsonObject>,
}

/// `lf.a2a.v1.TaskArtifactUpdateEvent`.
#[derive(Debug, PartialEq)]
pub struct TaskArtifactUpdateEvent {
    pub task_id: String,
    pub context_id: String,
    pub artifact: Option<Artifact>,
    pub append: bool,
    pub last_chunk: bool,
    pub metadata: Option<JsonObject>,
}

/// The `payload` oneof of `StreamResponse`.
#[derive(Debug, PartialEq)]
pub enum StreamPayload {
    Task(Task),
    Message(Message),
    StatusUpdate(TaskStatusUpdateEvent),
    ArtifactUpdate(TaskArtifactUpdateEvent),
}

/// `lf.a2a.v1.StreamResponse`.
#[derive(Debug, PartialEq)]
pub struct StreamResponse {
    pub payload: Option<StreamPayload>,
}

/// The `payload` oneof of `SendMessageResponse`.
#[derive(Debug, PartialEq)]
pub enum SendMessagePayload {
    Task(Task),
    Message(Message),
}

/// `lf.a2a.v1.SendMessageResponse`.
#[derive(Debug, PartialEq)]
pub struct SendMessageResponse {
    pub payload: Option<SendMessagePayload>,
}

/// `lf.a2a.v1.AuthenticationInfo`.
#[derive(Debug, PartialEq)]
pub struct AuthenticationInfo {
    pub scheme: String,
    pub credentials: String,
}

/// `lf.a2a.v1.TaskPushNotificationConfig`.
#[derive(Debug, PartialEq)]
pub struct TaskPushNotificationConfig {
    pub tenant: String,
    pub id: String,
    pub task_id: String,
    pub url: String,
    pub token: String,
    pub authentication: Option<AuthenticationInfo>,
}

/// `lf.a2a.v1.ListTaskPushNotificationConfigsResponse`.
#[derive(Debug, PartialEq)]
pub struct ListTaskPushNotificationConfigsResponse {
    pub configs: Vec<TaskPushNotificationConfig>,
    pub next_page_token: String,
}

/// `lf.a2a.v1.ListTasksResponse`.
#[derive(Debug, PartialEq)]
pub struct ListTasksResponse {
    pub tasks: Vec<Task>,
    pub next_page_token: String,
    pub page_size: i32,
    pub total_size: i32,
}

/// `lf.a2a.v1.SendMessageConfiguration`.
#[derive(Debug, PartialEq)]
pub struct SendMessageConfiguration {
    pub accepted_output_modes: Vec<String>,
    pub task_push_notification_config: Option<TaskPushNotificationConfig>,
    pub history_length: Option<i32>,
    pub return_immediately: bool,
}

/// `lf.a2a.v1.SendMessageRequest`.
#[derive(Debug, PartialEq)]
pub struct SendMessageRequest {
    pub tenant: String,
    pub message: Option<Message>,
    pub configuration: Option<SendMessageConfiguration>,
    pub metadata: Option<JsonObject>,
}

/// `lf.a2a.v1.GetTaskRequest`.
#[derive(Debug, PartialEq)]
pub struct GetTaskRequest {
    pub tenant: String,
    pub id: String,
    pub history_length: Option<i32>,
}

/// `lf.a2a.v1.ListTasksRequest`.
#[derive(Debug, PartialEq)]
pub struct ListTasksRequest {
    pub tenant: String,
    pub context_id: String,
    pub status: i32,
    pub page_size: Option<i32>,
    pub page_token: String,
    pub history_length: Option<i32>,
    pub status_timestamp_after: Option<Timestamp>,
    pub include_artifacts: Option<bool>,
}

/// `lf.a2a.v1.CancelTaskRequest`.
#[derive(Debug, PartialEq)]
pub struct CancelTaskRequest {
    pub tenant: String,
    pub id: String,
    pub metadata: Option<JsonObject>,
}

/// `lf.a2a.v1.SubscribeToTaskRequest`.
#[derive(Debug, PartialEq)]
pub struct SubscribeToTaskRequest {
    pub tenant: String,
    pub id: String,
}

/// `lf.a2a.v1.GetTaskPushNotificationConfigRequest`.
#[derive(Debug, PartialEq)]
pub struct GetTaskPushNotificationConfigRequest {
    pub tenant: String,
    pub task_id: String,
    pub id: String,
}

/// `lf.a2a.v1.DeleteTaskPushNotificationConfigRequest`.
#[derive(Debug, PartialEq)]
pub struct DeleteTaskPushNotificationConfigRequest {
    pub tenant: String,
    pub task_id: String,
    pub id: String,
}

/// `lf.a2a.v1.ListTaskPushNotificationConfigsRequest`.
#[derive(Debug, PartialEq)]
pub struct ListTaskPushNotificationConfigsRequest {
    pub tenant: String,
    pub task_id: String,
    pub page_size: i32,
    pub page_token: String,
}

/// `lf.a2a.v1.GetExtendedAgentCardRequest`.
#[derive(Debug, PartialEq)]
pub struct GetExtendedAgentCardRequest {
    pub tenant: String,
}

/// `lf.a2a.v1.AgentInterface`.
#[derive(Debug, PartialEq)]
pub struct AgentInterface {
    pub url: String,
    pub protocol_binding: String,
    pub tenant: String,
    pub protocol_version: String,
}

/// `lf.a2a.v1.AgentProvider`.
#[derive(Debug, PartialEq)]
pub struct AgentProvider {
    pub url: String,
    pub organization: String,
}

/// `lf.a2a.v1.AgentExtension`.
#[derive(Debug, PartialEq)]
pub struct AgentExtension {
    pub uri: String,
    pub description: String,
    pub required: bool,
    pub params: Option<JsonObject>,
}

/// `lf.a2a.v1.AgentCapabilities`.
#[derive(Debug, PartialEq)]
pub struct AgentCapabilities {
    pub streaming: Option<bool>,
    pub push_notifications: Option<bool>,
    pub extensions: Vec<AgentExtension>,
    pub extended_agent_card: Option<bool>,
}

/// `lf.a2a.v1.StringList`.
#[derive(Debug, PartialEq)]
pub struct StringList {
    pub list: Vec<String>,
}

/// `lf.a2a.v1.SecurityRequirement`.
#[derive(Debug, PartialEq)]
pub struct SecurityRequirement {
    pub schemes: Vec<(String, StringList)>,
}

/// `lf.a2a.v1.AgentSkill`.
#[derive(Debug, PartialEq)]
pub struct AgentSkill {
    pub id: String,
    pub name: String,
    pub description: String,
    pub tags: Vec<String>,
    pub examples: Vec<String>,
    pub input_modes: Vec<String>,
    pub output_modes: Vec<String>,
    pub security_requirements: Vec<SecurityRequirement>,
}

/// `lf.a2a.v1.AgentCardSignature`.
#[derive(Debug, PartialEq)]
pub struct AgentCardSignature {
    pub protected: String,
    pub signature: String,
    pub header: Option<JsonObject>,
}

/// `lf.a2a.v1.APIKeySecurityScheme`.
#[derive(Debug, PartialEq)]
pub struct ApiKeySecurityScheme {
    pub description: String,
    pub location: String,
    pub name: String,
}

/// `lf.a2a.v1.HTTPAuthSecurityScheme`.
#[derive(Debug, PartialEq)]
pub struct HttpAuthSecurityScheme {
    pub description: String,
    pub scheme: String,
    pub bearer_format: String,
}

/// `lf.a2a.v1.OpenIdConnectSecurityScheme`.
#[derive(Debug, PartialEq)]
pub struct OpenIdConnectSecurityScheme {
    pub description: String,
    pub open_id_connect_url: String,
}

/// `lf.a2a.v1.MutualTlsSecurityScheme`.
#[derive(Debug, PartialEq)]
pub struct MutualTlsSecurityScheme {
    pub description: String,
}

/// `lf.a2a.v1.AuthorizationCodeOAuthFlow`.
#[derive(Debug, PartialEq)]
pub struct AuthorizationCodeOAuthFlow {
    pub authorization_url: String,
    pub token_url: String,
    pub refresh_url: String,
    pub scopes: Vec<(String, String)>,
    pub pkce_required: bool,
}

/// `lf.a2a.v1.ClientCredentialsOAuthFlow`.
#[derive(Debug, PartialEq)]
pub struct ClientCredentialsOAuthFlow {
    pub token_url: String,
    pub refresh_url: String,
    pub scopes: Vec<(String, String)>,
}

/// `lf.a2a.v1.ImplicitOAuthFlow`.
#[derive(Debug, PartialEq)]
pub struct ImplicitOAuthFlow {
    pub authorization_url: String,
    pub refresh_url: String,
    pub scopes: Vec<(String, String)>,
}

/// `lf.a2a.v1.PasswordOAuthFlow`.
#[derive(Debug, PartialEq)]
pub struct PasswordOAuthFlow {
    pub token_url: String,
    pub refresh_url: String,
    pub scopes: Vec<(String, String)>,
}

/// `lf.a2a.v1.DeviceCodeOAuthFlow`.
#[derive(Debug, PartialEq)]
pub struct DeviceCodeOAuthFlow {
    pub device_authorization_url: String,
    pub token_url: String,
    pub refresh_url: String,
    pub scopes: Vec<(String, String)>,
}

/// The `flow` oneof of `OAuthFlows`.
#[derive(Debug, PartialEq)]
pub enum OAuthFlow {
    AuthorizationCode(AuthorizationCodeOAuthFlow),
    ClientCredentials(ClientCredentialsOAuthFlow),
    Implicit(ImplicitOAuthFlow),
    Password(PasswordOAuthFlow),
    DeviceCode(DeviceCodeOAuthFlow),
}

/// `lf.a2a.v1.OAuthFlows`.
#[derive(Debug, PartialEq)]
pub struct OAuthFlows {
    pub flow: Option<OAuthFlow>,
}

/// `lf.a2a.v1.OAuth2SecurityScheme`.
#[derive(Debug, PartialEq)]
pub struct OAuth2SecurityScheme {
    pub description: String,
    pub flows: Option<OAuthFlows>,
    pub oauth2_metadata_url: String,
}

/// The `scheme` oneof of `SecurityScheme`.
#[derive(Debug, PartialEq)]
pub enum Scheme {
    ApiKeySecurityScheme(ApiKeySecurityScheme),
    HttpAuthSecurityScheme(HttpAuthSecurityScheme),
    Oauth2SecurityScheme(OAuth2SecurityScheme),
    OpenIdConnectSecurityScheme(OpenIdConnectSecurityScheme),
    MtlsSecurityScheme(MutualTlsSecurityScheme),
}

/// `lf.a2a.v1.SecurityScheme`.
#[derive(Debug, PartialEq)]
pub struct SecurityScheme {
    pub scheme: Option<Scheme>,
}

/// `lf.a2a.v1.AgentCard`.
#[derive(Debug, PartialEq)]
pub struct AgentCard {
    pub name: String,
    pub description: String,
    pub supported_interfaces: Vec<AgentInterface>,
    pub provider: Option<AgentProvider>,
    pub version: String,
    pub documentation_url: Option<String>,
    pub capabilities: Option<AgentCapabilities>,
    pub security_schemes: Vec<(String, SecurityScheme)>,
    pub security_requirements: Vec<SecurityRequirement>,
    pub default_input_modes: Vec<String>,
    pub default_output_modes: Vec<String>,
    pub skills: Vec<AgentSkill>,
    pub signatures: Vec<AgentCardSignature>,
    pub icon_url: Option<String>,
}

/// The scopes (name and description) of a wire OAuth 2.0 flow; none when
/// it names no flow.
pub open spec fn flow_scopes(f: OAuthFlows) -> Seq<(String, String)> {
    match f.flow {
        Some(OAuthFlow::AuthorizationCode(a)) => a.scopes@,
        Some(OAuthFlow::ClientCredentials(a)) => a.scopes@,
        Some(OAuthFlow::Implicit(a)) => a.scopes@,
        Some(OAuthFlow::Password(a)) => a.scopes@,
        Some(OAuthFlow::DeviceCode(a)) => a.scopes@,
        None => Seq::empty(),
    }
}

/// A wire scheme's scope names are distinct (only an OAuth 2.0 scheme with
/// a flow has scopes).
pub open spec fn scheme_scopes_distinct(s: SecurityScheme) -> bool {
    match s.scheme {
        Some(Scheme::Oauth2SecurityScheme(o)) => match o.flows {
            Some(f) => crate::types::keys_distinct(flow_scopes(f)),
            None => true,
        },
        _ => true,
    }
}

/// Every name-keyed map in a wire card has distinct names.
pub open spec fn card_keys_distinct(c: AgentCard) -> bool {
    &&& crate::types::keys_distinct(c.security_schemes@)
    &&& forall|i: int|
        0 <= i < c.security_schemes@.len() ==> scheme_scopes_distinct(
            (#[trigger] c.security_schemes@[i]).1,
        )
    &&& forall|i: int|
        0 <= i < c.security_requirements@.len() ==> crate::types::keys_distinct(
            (#[trigger] c.security_requirements@[i]).schemes@,
        )
    &&& forall|i: int|
        0 <= i < c.skills@.len() ==> forall|j: int|
            0 <= j < (#[trigger] c.skills@[i]).security_requirements@.len() ==> crate::types::keys_distinct(
                (#[trigger] c.skills@[i].security_requirements@[j]).schemes@,
            )
}

} // verus!
