//! Each field of a wire message carries the field of the same name: the
//! conversions never move a value from one field to another.
//!
//! The round trips of the data model would survive two fields swapped on
//! both the way out and the way in; these laws would not.
use vstd::prelude::*;

use crate::convert::{
    read_agent_card, read_artifact_update, read_list_tasks_request, read_push_config,
    read_stream_response, wire_agent_card, wire_artifact_update, wire_list_tasks_request,
    wire_push_config, wire_stream_response,
};
use crate::pb;
use crate::types as ours;

verus! {

/// Writing an agent card puts each capability flag of the card into the
/// wire capability of the same name: a streaming agent's wire card says it
/// streams, whatever its push notification flag says.
pub proof fn lemma_written_card_capabilities(c: ours::AgentCard, q: pb::AgentCard)
    requires
        wire_agent_card(c, q),
    ensures
        q.capabilities is Some,
        q.capabilities->0.streaming == c.capabilities.streaming,
        q.capabilities->0.push_notifications == c.capabilities.push_notifications,
        q.capabilities->0.extended_agent_card == c.capabilities.extended_agent_card,
{
}

/// Reading a wire agent card takes each capability flag from the wire
/// capability of the same name; a card without capabilities declares none.
pub proof fn lemma_read_card_capabilities(q: pb::AgentCard, c: ours::AgentCard)
    requires
        read_agent_card(q, c),
    ensures
        match q.capabilities {
            Some(k) => {
                &&& c.capabilities.streaming == k.streaming
                &&& c.capabilities.push_notifications == k.push_notifications
                &&& c.capabilities.extended_agent_card == k.extended_agent_card
            },
            None => {
                &&& c.capabilities.streaming is None
                &&& c.capabilities.push_notifications is None
                &&& c.capabilities.extended_agent_card is None
            },
        },
{
}

/// A written artifact update names on the wire the task and context the
/// event names, each in its own field.
pub proof fn lemma_written_artifact_update_ids(e: ours::TaskArtifactUpdateEvent, q: pb::TaskArtifactUpdateEvent)
    requires
        wire_artifact_update(e, q),
    ensures
        q.task_id == e.task_id,
        q.context_id == e.context_id,
        q.append == e.append,
        q.last_chunk == e.last_chunk,
{
}

/// A read artifact update takes its task from the wire task id and its
/// context from the wire context id.
pub proof fn lemma_read_artifact_update_ids(q: pb::TaskArtifactUpdateEvent, e: ours::TaskArtifactUpdateEvent)
    requires
        read_artifact_update(q, e),
    ensures
        e.task_id == q.task_id,
        e.context_id == q.context_id,
        e.append == q.append,
        e.last_chunk == q.last_chunk,
{
}

/// A streamed artifact update keeps its task and context ids in their own
/// fields both when a server writes it and when a client reads it.
pub proof fn lemma_streamed_artifact_update_ids(
    r: ours::StreamResponse,
    q: pb::StreamResponse,
    q2: pb::StreamResponse,
    r2: ours::StreamResponse,
)
    requires
        wire_stream_response(r, q),
        read_stream_response(q2, r2),
    ensures
        r matches ours::StreamResponse::ArtifactUpdate { artifact_update: e } ==> q.payload matches Some(
            pb::StreamPayload::ArtifactUpdate(w),
        ) && w.task_id == e.task_id && w.context_id == e.context_id,
        q2.payload matches Some(pb::StreamPayload::ArtifactUpdate(w)) ==> r2 matches ours::StreamResponse::ArtifactUpdate {
            artifact_update: e,
        } && e.task_id == w.task_id && e.context_id == w.context_id,
{
}

/// A written `ListTasks` request asks for the page size and history length
/// the request asks for, each in its own field.
pub proof fn lemma_written_list_tasks_paging(r: ours::ListTasksRequest, q: pb::ListTasksRequest)
    requires
        wire_list_tasks_request(r, q),
    ensures
        q.page_size == r.page_size,
        q.history_length == r.history_length,
        q.include_artifacts == r.include_artifacts,
{
}

/// A read `ListTasks` request takes its page size and history length from
/// the wire fields of the same name.
pub proof fn lemma_read_list_tasks_paging(q: pb::ListTasksRequest, r: ours::ListTasksRequest)
    requires
        read_list_tasks_request(q, r),
    ensures
        r.page_size == q.page_size,
        r.history_length == q.history_length,
        r.include_artifacts == q.include_artifacts,
{
}

/// A written push notification config carries the config's own id as the
/// wire id and the task it is for as the wire task id (an absent one as the
/// empty string).
pub proof fn lemma_written_push_config_ids(c: ours::TaskPushNotificationConfig, q: pb::TaskPushNotificationConfig)
    requires
        wire_push_config(c, q),
    ensures
        c.id matches Some(id) ==> q.id@ == id@,
        c.id is None ==> q.id@.len() == 0,
        c.task_id matches Some(t) ==> q.task_id@ == t@,
        c.task_id is None ==> q.task_id@.len() == 0,
        q.url == c.url,
{
}

/// A read push notification config takes its id from the wire id and the
/// task it is for from the wire task id (an empty one reads as absent).
pub proof fn lemma_read_push_config_ids(q: pb::TaskPushNotificationConfig, c: ours::TaskPushNotificationConfig)
    requires
        read_push_config(q, c),
    ensures
        q.id@.len() > 0 ==> c.id == Some(q.id),
        q.id@.len() == 0 ==> c.id is None,
        q.task_id@.len() > 0 ==> c.task_id == Some(q.task_id),
        q.task_id@.len() == 0 ==> c.task_id is None,
        c.url == q.url,
{
}

} // verus!
