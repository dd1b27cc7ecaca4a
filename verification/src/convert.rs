//! Field-by-field conversions between the data model ([`crate::types`]) and
//! the gRPC wire messages ([`crate::pb`]).
//!
//! Proto3 plain `string` and enum fields cannot tell "unset" from "set to
//! the zero value". For fields the data model treats as optional, that zero
//! value reads as unset: an empty string as `None`, enum `0` (`UNSPECIFIED`)
//! as `None`; writing goes the other way, `None` becoming the zero value.
use vstd::prelude::*;

use crate::pb;
use crate::status::{GrpcCode, RpcStatus, status_is};
use crate::time::UtcDateTime;
use crate::round_trip::{lemma_read_card_keeps_keys_distinct, lemma_wire_card_keeps_keys_distinct};
use crate::types as ours;

verus! {

// --- strings and lists ---

/// The text of an optional string, empty when absent.
pub open spec fn text_or_empty(o: Option<String>) -> Seq<char> {
    match o {
        Some(s) => s@,
        None => Seq::empty(),
    }
}

/// An empty string read as absent.
pub open spec fn spec_non_empty(s: String) -> Option<String> {
    if s@.len() == 0 {
        None
    } else {
        Some(s)
    }
}

/// An optional string with `Some("")` read as absent.
pub open spec fn spec_opt_non_empty(o: Option<String>) -> Option<String> {
    match o {
        Some(s) => spec_non_empty(s),
        None => None,
    }
}

/// Reads an empty string as absent.
pub fn non_empty(s: String) -> (r: Option<String>)
    ensures
        r == spec_non_empty(s),
{
    if s.as_str().is_empty() {
        None
    } else {
        Some(s)
    }
}

/// Writes an absent string as the empty string.
pub fn or_empty(o: Option<String>) -> (r: String)
    ensures
        r@ == text_or_empty(o),
        o is Some ==> r == o->0,
{
    match o {
        Some(s) => s,
        None => String::new(),
    }
}

/// Reads an optional string, `Some("")` becoming absent.
pub fn opt_non_empty(o: Option<String>) -> (r: Option<String>)
    ensures
        r == spec_opt_non_empty(o),
{
    match o {
        Some(s) => non_empty(s),
        None => None,
    }
}

/// `b` holds `f` of each element of `a`, in order.
pub open spec fn maps_each<A, B>(a: Seq<A>, b: Seq<B>, f: spec_fn(A, B) -> bool) -> bool {
    &&& a.len() == b.len()
    &&& forall|i: int| #![trigger a[i]] #![trigger b[i]] 0 <= i < a.len() ==> f(a[i], b[i])
}

/// Converts each element of `v` with `f`, in order.
pub fn map_vec<A, B, F: Fn(A) -> B>(v: Vec<A>, f: F) -> (r: Vec<B>)
    requires
        forall|a: A| f.requires((a,)),
    ensures
        r@.len() == v@.len(),
        forall|i: int| 0 <= i < v@.len() ==> f.ensures((v@[i],), #[trigger] r@[i]),
{
    let ghost src = v@;
    let mut out: Vec<B> = Vec::new();
    for x in it: v
        invariant
            forall|a: A| f.requires((a,)),
            it.seq() == src,
            out@.len() == it.index(),
            forall|i: int| 0 <= i < it.index() ==> f.ensures((src[i],), #[trigger] out@[i]),
    {
        out.push(f(x));
    }
    out
}

/// Converts each element of `v` with `f`, in order, stopping at the first
/// error and returning it.
pub fn try_map_vec<A, B, E, F: Fn(A) -> Result<B, E>>(v: Vec<A>, f: F) -> (r: Result<Vec<B>, E>)
    requires
        forall|a: A| f.requires((a,)),
    ensures
        r is Ok ==> r->Ok_0@.len() == v@.len() && forall|i: int|
            0 <= i < v@.len() ==> f.ensures((v@[i],), Ok(#[trigger] r->Ok_0@[i])),
        r is Err ==> exists|i: int| 0 <= i < v@.len() && f.ensures((v@[i],), Err(r->Err_0)),
{
    let ghost src = v@;
    let mut out: Vec<B> = Vec::new();
    for x in it: v
        invariant
            forall|a: A| f.requires((a,)),
            it.seq() == src,
            out@.len() == it.index(),
            forall|i: int| 0 <= i < it.index() ==> f.ensures((src[i],), Ok(#[trigger] out@[i])),
    {
        let ghost k = it.index();
        match f(x) {
            Ok(y) => out.push(y),
            Err(e) => {
                assert(f.ensures((src[k],), Err(e)));
                return Err(e);
            },
        }
    }
    Ok(out)
}

// --- Part ---

/// `q` is the wire form of `p`.
pub open spec fn wire_part(p: ours::Part, q: pb::Part) -> bool {
    &&& q.content == Some(
        match p.content {
            ours::PartContent::Text { text } => pb::PartContent::Text(text),
            ours::PartContent::Raw { raw } => pb::PartContent::Raw(raw),
            ours::PartContent::Url { url } => pb::PartContent::Url(url),
            ours::PartContent::Data { data } => pb::PartContent::Data(data),
        },
    )
    &&& q.metadata == p.metadata
    &&& q.filename@ == text_or_empty(p.filename)
    &&& q.media_type@ == text_or_empty(p.media_type)
}

/// `p` is what the wire part `q` reads as (which needs `q` to have content).
pub open spec fn read_part(q: pb::Part, p: ours::Part) -> bool {
    &&& q.content is Some
    &&& p.content == match q.content->0 {
        pb::PartContent::Text(text) => ours::PartContent::Text { text },
        pb::PartContent::Raw(raw) => ours::PartContent::Raw { raw },
        pb::PartContent::Url(url) => ours::PartContent::Url { url },
        pb::PartContent::Data(data) => ours::PartContent::Data { data },
    }
    &&& p.metadata == q.metadata
    &&& p.filename == spec_non_empty(q.filename)
    &&& p.media_type == spec_non_empty(q.media_type)
}

/// The status answering a part with no content.
pub open spec fn missing_part_content(e: RpcStatus) -> bool {
    status_is(e, GrpcCode::InvalidArgument, "Part.content is required"@)
}

/// Reads a wire part; a part without content is refused.
pub fn pb_part_to_ours(p: pb::Part) -> (r: Result<ours::Part, RpcStatus>)
    ensures
        r is Ok <==> p.content is Some,
        r is Ok ==> read_part(p, r->Ok_0),
        r is Err ==> missing_part_content(r->Err_0),
{
    let content = match p.content {
        Some(pb::PartContent::Text(t)) => ours::PartContent::Text { text: t },
        Some(pb::PartContent::Raw(b)) => ours::PartContent::Raw { raw: b },
        Some(pb::PartContent::Url(u)) => ours::PartContent::Url { url: u },
        Some(pb::PartContent::Data(v)) => ours::PartContent::Data { data: v },
        None => return Err(RpcStatus::invalid_argument("Part.content is required")),
    };
    Ok(
        ours::Part {
            content,
            metadata: p.metadata,
            filename: non_empty(p.filename),
            media_type: non_empty(p.media_type),
        },
    )
}

/// Writes a part in its wire form.
pub fn our_part_to_pb(p: ours::Part) -> (r: pb::Part)
    ensures
        wire_part(p, r),
{
    let content = Some(
        match p.content {
            ours::PartContent::Text { text } => pb::PartContent::Text(text),
            ours::PartContent::Raw { raw } => pb::PartContent::Raw(raw),
            ours::PartContent::Url { url } => pb::PartContent::Url(url),
            ours::PartContent::Data { data } => pb::PartContent::Data(data),
        },
    );
    pb::Part {
        metadata: p.metadata,
        filename: or_empty(p.filename),
        media_type: or_empty(p.media_type),
        content,
    }
}

/// `b` is `f` of `a`: both absent, or both present and related by `f`.
pub open spec fn option_maps<A, B>(a: Option<A>, b: Option<B>, f: spec_fn(A, B) -> bool) -> bool {
    match a {
        Some(x) => b is Some && f(x, b->0),
        None => b is None,
    }
}

// --- enums ---

/// The data model's reading of each wire task state.
pub open spec fn spec_task_state_to_ours(s: pb::TaskState) -> ours::TaskState {
    match s {
        pb::TaskState::Unspecified => ours::TaskState::Unspecified,
        pb::TaskState::Submitted => ours::TaskState::Submitted,
        pb::TaskState::Working => ours::TaskState::Working,
        pb::TaskState::Completed => ours::TaskState::Completed,
        pb::TaskState::Failed => ours::TaskState::Failed,
        pb::TaskState::Canceled => ours::TaskState::Canceled,
        pb::TaskState::InputRequired => ours::TaskState::InputRequired,
        pb::TaskState::Rejected => ours::TaskState::Rejected,
        pb::TaskState::AuthRequired => ours::TaskState::AuthRequired,
    }
}

/// The wire task state of each data-model task state.
pub open spec fn spec_task_state_to_pb(s: ours::TaskState) -> pb::TaskState {
    match s {
        ours::TaskState::Unspecified => pb::TaskState::Unspecified,
        ours::TaskState::Submitted => pb::TaskState::Submitted,
        ours::TaskState::Working => pb::TaskState::Working,
        ours::TaskState::Completed => pb::TaskState::Completed,
        ours::TaskState::Failed => pb::TaskState::Failed,
        ours::TaskState::Canceled => pb::TaskState::Canceled,
        ours::TaskState::InputRequired => pb::TaskState::InputRequired,
        ours::TaskState::Rejected => pb::TaskState::Rejected,
        ours::TaskState::AuthRequired => pb::TaskState::AuthRequired,
    }
}

/// The task state a wire number reads as: an unknown number reads as
/// `Unspecified`.
pub open spec fn spec_read_task_state(n: i32) -> ours::TaskState {
    match pb::spec_task_state_from_number(n) {
        Some(s) => spec_task_state_to_ours(s),
        None => ours::TaskState::Unspecified,
    }
}

/// The wire number a task state is written as.
pub open spec fn spec_write_task_state(s: ours::TaskState) -> i32 {
    pb::spec_task_state_number(spec_task_state_to_pb(s))
}

/// Reads a wire task state number; an unknown number reads as
/// `Unspecified`.
pub fn pb_task_state_to_ours(state: i32) -> (r: ours::TaskState)
    ensures
        r == spec_read_task_state(state),
{
    match pb::TaskState::from_number(state).unwrap_or(pb::TaskState::Unspecified) {
        pb::TaskState::Unspecified => ours::TaskState::Unspecified,
        pb::TaskState::Submitted => ours::TaskState::Submitted,
        pb::TaskState::Working => ours::TaskState::Working,
        pb::TaskState::Completed => ours::TaskState::Completed,
        pb::TaskState::Failed => ours::TaskState::Failed,
        pb::TaskState::Canceled => ours::TaskState::Canceled,
        pb::TaskState::InputRequired => ours::TaskState::InputRequired,
        pb::TaskState::Rejected => ours::TaskState::Rejected,
        pb::TaskState::AuthRequired => ours::TaskState::AuthRequired,
    }
}

/// The wire form of a task state.
pub fn our_task_state_to_pb(state: ours::TaskState) -> (r: pb::TaskState)
    ensures
        r == spec_task_state_to_pb(state),
{
    match state {
        ours::TaskState::Unspecified => pb::TaskState::Unspecified,
        ours::TaskState::Submitted => pb::TaskState::Submitted,
        ours::TaskState::Working => pb::TaskState::Working,
        ours::TaskState::Completed => pb::TaskState::Completed,
        ours::TaskState::Failed => pb::TaskState::Failed,
        ours::TaskState::Canceled => pb::TaskState::Canceled,
        ours::TaskState::InputRequired => pb::TaskState::InputRequired,
        ours::TaskState::Rejected => pb::TaskState::Rejected,
        ours::TaskState::AuthRequired => pb::TaskState::AuthRequired,
    }
}

/// The role a wire number reads as: an unknown number reads as
/// `Unspecified`.
pub open spec fn spec_read_role(n: i32) -> ours::Role {
    match pb::spec_role_from_number(n) {
        Some(pb::Role::User) => ours::Role::User,
        Some(pb::Role::Agent) => ours::Role::Agent,
        _ => ours::Role::Unspecified,
    }
}

/// The wire role of each data-model role.
pub open spec fn spec_role_to_pb(r: ours::Role) -> pb::Role {
    match r {
        ours::Role::Unspecified => pb::Role::Unspecified,
        ours::Role::User => pb::Role::User,
        ours::Role::Agent => pb::Role::Agent,
    }
}

/// Reads a wire role number; an unknown number reads as `Unspecified`.
pub fn pb_role_to_ours(role: i32) -> (r: ours::Role)
    ensures
        r == spec_read_role(role),
{
    match pb::Role::from_number(role).unwrap_or(pb::Role::Unspecified) {
        pb::Role::Unspecified => ours::Role::Unspecified,
        pb::Role::User => ours::Role::User,
        pb::Role::Agent => ours::Role::Agent,
    }
}

/// The wire form of a role.
pub fn our_role_to_pb(role: ours::Role) -> (r: pb::Role)
    ensures
        r == spec_role_to_pb(role),
{
    match role {
        ours::Role::Unspecified => pb::Role::Unspecified,
        ours::Role::User => pb::Role::User,
        ours::Role::Agent => pb::Role::Agent,
    }
}

// --- timestamps ---

/// The nanoseconds a wire timestamp is read with: a negative count reads
/// as zero.
pub open spec fn spec_read_nanos(ts: pb::Timestamp) -> u32 {
    if ts.nanos < 0 {
        0
    } else {
        ts.nanos as u32
    }
}

/// The instant a wire timestamp reads as, if chrono accepts it.
pub open spec fn spec_read_timestamp(ts: pb::Timestamp) -> Option<UtcDateTime> {
    if crate::time::chrono_accepts_timestamp(ts.seconds, spec_read_nanos(ts)) {
        Some(UtcDateTime::spec_new(ts.seconds, spec_read_nanos(ts)))
    } else {
        None
    }
}

/// An optional wire timestamp read as an optional instant.
pub open spec fn spec_read_opt_timestamp(ts: Option<pb::Timestamp>) -> Option<UtcDateTime> {
    match ts {
        Some(t) => spec_read_timestamp(t),
        None => None,
    }
}

/// The wire form of an instant.
pub open spec fn spec_wire_timestamp(dt: UtcDateTime) -> pb::Timestamp {
    pb::Timestamp { seconds: dt.spec_seconds(), nanos: dt.spec_nanos() as i32 }
}

/// An optional instant written as an optional wire timestamp.
pub open spec fn spec_wire_opt_timestamp(dt: Option<UtcDateTime>) -> Option<pb::Timestamp> {
    match dt {
        Some(d) => Some(spec_wire_timestamp(d)),
        None => None,
    }
}

/// Reads a wire timestamp; `None` when chrono does not accept it.
pub fn timestamp_to_chrono(ts: pb::Timestamp) -> (r: Option<UtcDateTime>)
    ensures
        r == spec_read_timestamp(ts),
{
    let nanos: u32 = if ts.nanos < 0 {
        0
    } else {
        ts.nanos as u32
    };
    UtcDateTime::from_timestamp(ts.seconds, nanos)
}

/// The wire form of an instant.
pub fn chrono_to_timestamp(dt: UtcDateTime) -> (r: pb::Timestamp)
    ensures
        r == spec_wire_timestamp(dt),
        0 <= r.nanos < 2_000_000_000,
{
    let seconds = dt.timestamp();
    let nanos = dt.timestamp_subsec_nanos();
    pb::Timestamp { seconds, nanos: nanos as i32 }
}

fn opt_timestamp_to_chrono(ts: Option<pb::Timestamp>) -> (r: Option<UtcDateTime>)
    ensures
        r == spec_read_opt_timestamp(ts),
{
    match ts {
        Some(t) => timestamp_to_chrono(t),
        None => None,
    }
}

fn opt_chrono_to_timestamp(dt: Option<UtcDateTime>) -> (r: Option<pb::Timestamp>)
    ensures
        r == spec_wire_opt_timestamp(dt),
{
    match dt {
        Some(d) => Some(chrono_to_timestamp(d)),
        None => None,
    }
}

// --- Message ---

/// Every part of a wire message has content.
pub open spec fn message_readable(m: pb::Message) -> bool {
    forall|i: int| 0 <= i < m.parts@.len() ==> (#[trigger] m.parts@[i]).content is Some
}

/// `q` is the wire form of `m`.
pub open spec fn wire_message(m: ours::Message, q: pb::Message) -> bool {
    &&& q.message_id == m.message_id
    &&& q.context_id@ == text_or_empty(m.context_id)
    &&& q.task_id@ == text_or_empty(m.task_id)
    &&& q.role == pb::spec_role_number(spec_role_to_pb(m.role))
    &&& maps_each(m.parts@, q.parts@, |a: ours::Part, b: pb::Part| wire_part(a, b))
    &&& q.metadata == m.metadata
    &&& q.extensions == m.extensions
    &&& q.reference_task_ids == m.reference_task_ids
}

/// `m` is what the wire message `q` reads as.
pub open spec fn read_message(q: pb::Message, m: ours::Message) -> bool {
    &&& m.message_id == q.message_id
    &&& m.context_id == spec_non_empty(q.context_id)
    &&& m.task_id == spec_non_empty(q.task_id)
    &&& m.role == spec_read_role(q.role)
    &&& maps_each(q.parts@, m.parts@, |a: pb::Part, b: ours::Part| read_part(a, b))
    &&& m.metadata == q.metadata
    &&& m.extensions == q.extensions
    &&& m.reference_task_ids == q.reference_task_ids
}

/// Reads a wire message; refused when one of its parts has no content.
pub fn pb_message_to_ours(m: pb::Message) -> (r: Result<ours::Message, RpcStatus>)
    ensures
        r is Ok <==> message_readable(m),
        r is Ok ==> read_message(m, r->Ok_0),
        r is Err ==> missing_part_content(r->Err_0),
{
    let ghost q = m;
    let parts = match try_map_vec(m.parts, pb_part_to_ours) {
        Ok(parts) => parts,
        Err(e) => return Err(e),
    };
    assert(message_readable(q)) by {
        assert forall|i: int| 0 <= i < q.parts@.len() implies (#[trigger] q.parts@[i]).content is Some by {
            assert(read_part(q.parts@[i], parts@[i]));
        }
    }
    Ok(
        ours::Message {
            message_id: m.message_id,
            context_id: non_empty(m.context_id),
            task_id: non_empty(m.task_id),
            role: pb_role_to_ours(m.role),
            parts,
            metadata: m.metadata,
            extensions: m.extensions,
            reference_task_ids: m.reference_task_ids,
        },
    )
}

/// Writes a message in its wire form.
pub fn our_message_to_pb(m: ours::Message) -> (r: pb::Message)
    ensures
        wire_message(m, r),
{
    pb::Message {
        message_id: m.message_id,
        context_id: or_empty(m.context_id),
        task_id: or_empty(m.task_id),
        role: our_role_to_pb(m.role).number(),
        parts: map_vec(m.parts, our_part_to_pb),
        metadata: m.metadata,
        extensions: m.extensions,
        reference_task_ids: m.reference_task_ids,
    }
}

// --- TaskStatus / Artifact / Task ---

/// A wire status's message, if any, is readable.
pub open spec fn task_status_readable(s: pb::TaskStatus) -> bool {
    s.message is Some ==> message_readable(s.message->0)
}

/// `q` is the wire form of `s`.
pub open spec fn wire_task_status(s: ours::TaskStatus, q: pb::TaskStatus) -> bool {
    &&& q.state == spec_write_task_state(s.state)
    &&& option_maps(s.message, q.message, |a: ours::Message, b: pb::Message| wire_message(a, b))
    &&& q.timestamp == spec_wire_opt_timestamp(s.timestamp)
}

/// `s` is what the wire status `q` reads as.
pub open spec fn read_task_status(q: pb::TaskStatus, s: ours::TaskStatus) -> bool {
    &&& s.state == spec_read_task_state(q.state)
    &&& option_maps(q.message, s.message, |a: pb::Message, b: ours::Message| read_message(a, b))
    &&& s.timestamp == spec_read_opt_timestamp(q.timestamp)
}

/// Reads a wire task status; refused when its message has a part without
/// content. A timestamp chrono does not accept reads as absent.
pub fn pb_task_status_to_ours(s: pb::TaskStatus) -> (r: Result<ours::TaskStatus, RpcStatus>)
    ensures
        r is Ok <==> task_status_readable(s),
        r is Ok ==> read_task_status(s, r->Ok_0),
        r is Err ==> missing_part_content(r->Err_0),
{
    let message = match s.message {
        Some(m) => match pb_message_to_ours(m) {
            Ok(m) => Some(m),
            Err(e) => return Err(e),
        },
        None => None,
    };
    Ok(
        ours::TaskStatus {
            state: pb_task_state_to_ours(s.state),
            message,
            timestamp: opt_timestamp_to_chrono(s.timestamp),
        },
    )
}

/// Writes a task status in its wire form.
pub fn our_task_status_to_pb(s: ours::TaskStatus) -> (r: pb::TaskStatus)
    ensures
        wire_task_status(s, r),
{
    let message = match s.message {
        Some(m) => Some(our_message_to_pb(m)),
        None => None,
    };
    pb::TaskStatus {
        state: our_task_state_to_pb(s.state).number(),
        message,
        timestamp: opt_chrono_to_timestamp(s.timestamp),
    }
}

/// Every part of a wire artifact has content.
pub open spec fn artifact_readable(a: pb::Artifact) -> bool {
    forall|i: int| 0 <= i < a.parts@.len() ==> (#[trigger] a.parts@[i]).content is Some
}

/// `q` is the wire form of `a`.
pub open spec fn wire_artifact(a: ours::Artifact, q: pb::Artifact) -> bool {
    &&& q.artifact_id == a.artifact_id
    &&& q.name@ == text_or_empty(a.name)
    &&& q.description@ == text_or_empty(a.description)
    &&& maps_each(a.parts@, q.parts@, |x: ours::Part, y: pb::Part| wire_part(x, y))
    &&& q.metadata == a.metadata
    &&& q.extensions == a.extensions
}

/// `a` is what the wire artifact `q` reads as.
pub open spec fn read_artifact(q: pb::Artifact, a: ours::Artifact) -> bool {
    &&& a.artifact_id == q.artifact_id
    &&& a.name == spec_non_empty(q.name)
    &&& a.description == spec_non_empty(q.description)
    &&& maps_each(q.parts@, a.parts@, |x: pb::Part, y: ours::Part| read_part(x, y))
    &&& a.metadata == q.metadata
    &&& a.extensions == q.extensions
}

/// Reads a wire artifact; refused when one of its parts has no content.
pub fn pb_artifact_to_ours(a: pb::Artifact) -> (r: Result<ours::Artifact, RpcStatus>)
    ensures
        r is Ok <==> artifact_readable(a),
        r is Ok ==> read_artifact(a, r->Ok_0),
        r is Err ==> missing_part_content(r->Err_0),
{
    let ghost q = a;
    let parts = match try_map_vec(a.parts, pb_part_to_ours) {
        Ok(parts) => parts,
        Err(e) => return Err(e),
    };
    assert(artifact_readable(q)) by {
        assert forall|i: int| 0 <= i < q.parts@.len() implies (#[trigger] q.parts@[i]).content is Some by {
            assert(read_part(q.parts@[i], parts@[i]));
        }
    }
    Ok(
        ours::Artifact {
            artifact_id: a.artifact_id,
            name: non_empty(a.name),
            description: non_empty(a.description),
            parts,
            metadata: a.metadata,
            extensions: a.extensions,
        },
    )
}

/// Writes an artifact in its wire form.
pub fn our_artifact_to_pb(a: ours::Artifact) -> (r: pb::Artifact)
    ensures
        wire_artifact(a, r),
{
    pb::Artifact {
        artifact_id: a.artifact_id,
        name: or_empty(a.name),
        description: or_empty(a.description),
        parts: map_vec(a.parts, our_part_to_pb),
        metadata: a.metadata,
        extensions: a.extensions,
    }
}

/// A wire task has its status, and every message and artifact in it is
/// readable.
pub open spec fn task_readable(t: pb::Task) -> bool {
    &&& t.status is Some
    &&& task_status_readable(t.status->0)
    &&& forall|i: int| 0 <= i < t.artifacts@.len() ==> artifact_readable(#[trigger] t.artifacts@[i])
    &&& forall|i: int| 0 <= i < t.history@.len() ==> message_readable(#[trigger] t.history@[i])
}

/// The status answering an unreadable wire task: a missing status is an
/// internal error, otherwise a part lacks its content.
pub open spec fn task_error(t: pb::Task, e: RpcStatus) -> bool {
    if t.status is None {
        status_is(e, GrpcCode::Internal, "task is missing its status"@)
    } else {
        missing_part_content(e)
    }
}

/// `q` is the wire form of `t`.
pub open spec fn wire_task(t: ours::Task, q: pb::Task) -> bool {
    &&& q.id == t.id
    &&& q.context_id@ == text_or_empty(t.context_id)
    &&& q.status is Some
    &&& wire_task_status(t.status, q.status->0)
    &&& maps_each(t.artifacts@, q.artifacts@, |x: ours::Artifact, y: pb::Artifact| wire_artifact(x, y))
    &&& maps_each(t.history@, q.history@, |x: ours::Message, y: pb::Message| wire_message(x, y))
    &&& q.metadata == t.metadata
}

/// `t` is what the wire task `q` reads as.
pub open spec fn read_task(q: pb::Task, t: ours::Task) -> bool {
    &&& t.id == q.id
    &&& t.context_id == spec_non_empty(q.context_id)
    &&& q.status is Some
    &&& read_task_status(q.status->0, t.status)
    &&& maps_each(q.artifacts@, t.artifacts@, |x: pb::Artifact, y: ours::Artifact| read_artifact(x, y))
    &&& maps_each(q.history@, t.history@, |x: pb::Message, y: ours::Message| read_message(x, y))
    &&& t.metadata == q.metadata
}

/// Reads a wire task; refused when it has no status or a part without
/// content.
pub fn pb_task_to_ours(t: pb::Task) -> (r: Result<ours::Task, RpcStatus>)
    ensures
        r is Ok <==> task_readable(t),
        r is Ok ==> read_task(t, r->Ok_0),
        r is Err ==> task_error(t, r->Err_0),
{
    let ghost q = t;
    let status = match t.status {
        Some(s) => s,
        None => return Err(RpcStatus::internal("task is missing its status")),
    };
    let status = match pb_task_status_to_ours(status) {
        Ok(s) => s,
        Err(e) => return Err(e),
    };
    let artifacts = match try_map_vec(t.artifacts, pb_artifact_to_ours) {
        Ok(a) => a,
        Err(e) => return Err(e),
    };
    let history = match try_map_vec(t.history, pb_message_to_ours) {
        Ok(h) => h,
        Err(e) => return Err(e),
    };
    assert(task_readable(q)) by {
        assert forall|i: int| 0 <= i < q.artifacts@.len() implies artifact_readable(
            #[trigger] q.artifacts@[i],
        ) by {
            assert(read_artifact(q.artifacts@[i], artifacts@[i]));
        }
        assert forall|i: int| 0 <= i < q.history@.len() implies message_readable(
            #[trigger] q.history@[i],
        ) by {
            assert(read_message(q.history@[i], history@[i]));
        }
    }
    Ok(
        ours::Task {
            id: t.id,
            context_id: non_empty(t.context_id),
            status,
            artifacts,
            history,
            metadata: t.metadata,
        },
    )
}

/// Writes a task in its wire form.
pub fn our_task_to_pb(t: ours::Task) -> (r: pb::Task)
    ensures
        wire_task(t, r),
{
    pb::Task {
        id: t.id,
        context_id: or_empty(t.context_id),
        status: Some(our_task_status_to_pb(t.status)),
        artifacts: map_vec(t.artifacts, our_artifact_to_pb),
        history: map_vec(t.history, our_message_to_pb),
        metadata: t.metadata,
    }
}

// --- streamed events ---

/// A wire status update has its status, and that status is readable.
pub open spec fn status_update_readable(e: pb::TaskStatusUpdateEvent) -> bool {
    e.status is Some && task_status_readable(e.status->0)
}

/// The status answering an unreadable wire status update.
pub open spec fn status_update_error(e: pb::TaskStatusUpdateEvent, s: RpcStatus) -> bool {
    if e.status is None {
        status_is(s, GrpcCode::Internal, "status update is missing its status"@)
    } else {
        missing_part_content(s)
    }
}

/// `q` is the wire form of `e`.
pub open spec fn wire_status_update(e: ours::TaskStatusUpdateEvent, q: pb::TaskStatusUpdateEvent) -> bool {
    &&& q.task_id == e.task_id
    &&& q.context_id == e.context_id
    &&& q.status is Some
    &&& wire_task_status(e.status, q.status->0)
    &&& q.metadata == e.metadata
}

/// `e` is what the wire status update `q` reads as.
pub open spec fn read_status_update(q: pb::TaskStatusUpdateEvent, e: ours::TaskStatusUpdateEvent) -> bool {
    &&& e.task_id == q.task_id
    &&& e.context_id == q.context_id
    &&& q.status is Some
    &&& read_task_status(q.status->0, e.status)
    &&& e.metadata == q.metadata
}

/// Reads a wire status update; refused when it has no status or a part
/// without content.
pub fn pb_status_update_to_ours(e: pb::TaskStatusUpdateEvent) -> (r: Result<ours::TaskStatusUpdateEvent, RpcStatus>)
    ensures
        r is Ok <==> status_update_readable(e),
        r is Ok ==> read_status_update(e, r->Ok_0),
        r is Err ==> status_update_error(e, r->Err_0),
{
    let status = match e.status {
        Some(s) => s,
        None => return Err(RpcStatus::internal("status update is missing its status")),
    };
    let status = match pb_task_status_to_ours(status) {
        Ok(s) => s,
        Err(err) => return Err(err),
    };
    Ok(ours::TaskStatusUpdateEvent {
        task_id: e.task_id,
        context_id: e.context_id,
        status,
        metadata: e.metadata,
    })
}

/// Writes a status update in its wire form.
pub fn our_status_update_to_pb(e: ours::TaskStatusUpdateEvent) -> (r: pb::TaskStatusUpdateEvent)
    ensures
        wire_status_update(e, r),
{
    pb::TaskStatusUpdateEvent {
        task_id: e.task_id,
        context_id: e.context_id,
        status: Some(our_task_status_to_pb(e.status)),
        metadata: e.metadata,
    }
}

/// A wire artifact update has its artifact, and that artifact is readable.
pub open spec fn artifact_update_readable(e: pb::TaskArtifactUpdateEvent) -> bool {
    e.artifact is Some && artifact_readable(e.artifact->0)
}

/// The status answering an unreadable wire artifact update.
pub open spec fn artifact_update_error(e: pb::TaskArtifactUpdateEvent, s: RpcStatus) -> bool {
    if e.artifact is None {
        status_is(s, GrpcCode::Internal, "artifact update is missing its artifact"@)
    } else {
        missing_part_content(s)
    }
}

/// `q` is the wire form of `e`.
pub open spec fn wire_artifact_update(e: ours::TaskArtifactUpdateEvent, q: pb::TaskArtifactUpdateEvent) -> bool {
    &&& q.task_id == e.task_id
    &&& q.context_id == e.context_id
    &&& q.artifact is Some
    &&& wire_artifact(e.artifact, q.artifact->0)
    &&& q.append == e.append
    &&& q.last_chunk == e.last_chunk
    &&& q.metadata == e.metadata
}

/// `e` is what the wire artifact update `q` reads as.
pub open spec fn read_artifact_update(q: pb::TaskArtifactUpdateEvent, e: ours::TaskArtifactUpdateEvent) -> bool {
    &&& e.task_id == q.task_id
    &&& e.context_id == q.context_id
    &&& q.artifact is Some
    &&& read_artifact(q.artifact->0, e.artifact)
    &&& e.append == q.append
    &&& e.last_chunk == q.last_chunk
    &&& e.metadata == q.metadata
}

/// Reads a wire artifact update; refused when it has no artifact or a part
/// without content.
pub fn pb_artifact_update_to_ours(e: pb::TaskArtifactUpdateEvent) -> (r: Result<ours::TaskArtifactUpdateEvent, RpcStatus>)
    ensures
        r is Ok <==> artifact_update_readable(e),
        r is Ok ==> read_artifact_update(e, r->Ok_0),
        r is Err ==> artifact_update_error(e, r->Err_0),
        r is Ok ==> r->Ok_0.task_id == e.task_id && r->Ok_0.context_id == e.context_id,
{
    let artifact = match e.artifact {
        Some(a) => a,
        None => return Err(RpcStatus::internal("artifact update is missing its artifact")),
    };
    let artifact = match pb_artifact_to_ours(artifact) {
        Ok(a) => a,
        Err(err) => return Err(err),
    };
    Ok(ours::TaskArtifactUpdateEvent {
        task_id: e.task_id,
        context_id: e.context_id,
        artifact,
        append: e.append,
        last_chunk: e.last_chunk,
        metadata: e.metadata,
    })
}

/// Writes an artifact update in its wire form.
pub fn our_artifact_update_to_pb(e: ours::TaskArtifactUpdateEvent) -> (r: pb::TaskArtifactUpdateEvent)
    ensures
        wire_artifact_update(e, r),
        r.task_id == e.task_id,
        r.context_id == e.context_id,
{
    pb::TaskArtifactUpdateEvent {
        task_id: e.task_id,
        context_id: e.context_id,
        artifact: Some(our_artifact_to_pb(e.artifact)),
        append: e.append,
        last_chunk: e.last_chunk,
        metadata: e.metadata,
    }
}

/// A wire stream response carries a payload, and the payload is readable.
pub open spec fn stream_response_readable(r: pb::StreamResponse) -> bool {
    match r.payload {
        Some(pb::StreamPayload::Task(t)) => task_readable(t),
        Some(pb::StreamPayload::Message(m)) => message_readable(m),
        Some(pb::StreamPayload::StatusUpdate(e)) => status_update_readable(e),
        Some(pb::StreamPayload::ArtifactUpdate(e)) => artifact_update_readable(e),
        None => false,
    }
}

/// The status answering an unreadable wire stream response.
pub open spec fn stream_response_error(r: pb::StreamResponse, s: RpcStatus) -> bool {
    match r.payload {
        Some(pb::StreamPayload::Task(t)) => task_error(t, s),
        Some(pb::StreamPayload::Message(m)) => missing_part_content(s),
        Some(pb::StreamPayload::StatusUpdate(e)) => status_update_error(e, s),
        Some(pb::StreamPayload::ArtifactUpdate(e)) => artifact_update_error(e, s),
        None => status_is(s, GrpcCode::Internal, "stream response carried no payload"@),
    }
}

/// `q` is the wire form of `r`.
pub open spec fn wire_stream_response(r: ours::StreamResponse, q: pb::StreamResponse) -> bool {
    match r {
        ours::StreamResponse::Task { task } => q.payload matches Some(
            pb::StreamPayload::Task(t),
        ) && wire_task(task, t),
        ours::StreamResponse::Message { message } => q.payload matches Some(
            pb::StreamPayload::Message(m),
        ) && wire_message(message, m),
        ours::StreamResponse::StatusUpdate { status_update } => q.payload matches Some(
            pb::StreamPayload::StatusUpdate(e),
        ) && wire_status_update(status_update, e),
        ours::StreamResponse::ArtifactUpdate { artifact_update } => q.payload matches Some(
            pb::StreamPayload::ArtifactUpdate(e),
        ) && wire_artifact_update(artifact_update, e),
    }
}

/// `r` is what the wire stream response `q` reads as.
pub open spec fn read_stream_response(q: pb::StreamResponse, r: ours::StreamResponse) -> bool {
    match q.payload {
        Some(pb::StreamPayload::Task(t)) => r matches ours::StreamResponse::Task { task } && read_task(
            t,
            task,
        ),
        Some(pb::StreamPayload::Message(m)) => r matches ours::StreamResponse::Message { message }
            && read_message(m, message),
        Some(pb::StreamPayload::StatusUpdate(e)) => r matches ours::StreamResponse::StatusUpdate {
            status_update,
        } && read_status_update(e, status_update),
        Some(pb::StreamPayload::ArtifactUpdate(e)) => r matches ours::StreamResponse::ArtifactUpdate {
            artifact_update,
        } && read_artifact_update(e, artifact_update),
        None => false,
    }
}

/// Writes a stream response in its wire form.
pub fn our_stream_response_to_pb(r: ours::StreamResponse) -> (q: pb::StreamResponse)
    ensures
        wire_stream_response(r, q),
        r matches ours::StreamResponse::ArtifactUpdate { artifact_update: e } ==> q.payload matches Some(
            pb::StreamPayload::ArtifactUpdate(w),
        ) && w.task_id == e.task_id && w.context_id == e.context_id,
{
    let payload = Some(
        match r {
            ours::StreamResponse::Task { task } => pb::StreamPayload::Task(our_task_to_pb(task)),
            ours::StreamResponse::Message { message } => pb::StreamPayload::Message(
                our_message_to_pb(message),
            ),
            ours::StreamResponse::StatusUpdate { status_update } => pb::StreamPayload::StatusUpdate(
                our_status_update_to_pb(status_update),
            ),
            ours::StreamResponse::ArtifactUpdate { artifact_update } => pb::StreamPayload::ArtifactUpdate(
                our_artifact_update_to_pb(artifact_update),
            ),
        },
    );
    pb::StreamResponse { payload }
}

/// Reads a wire stream response; a response with no payload is refused
/// rather than guessed at, as is one whose payload is unreadable.
pub fn pb_stream_response_to_ours(r: pb::StreamResponse) -> (o: Result<ours::StreamResponse, RpcStatus>)
    ensures
        o is Ok <==> stream_response_readable(r),
        o is Ok ==> read_stream_response(r, o->Ok_0),
        o is Err ==> stream_response_error(r, o->Err_0),
        o is Ok ==> (match r.payload {
            Some(pb::StreamPayload::ArtifactUpdate(w)) => o->Ok_0 matches ours::StreamResponse::ArtifactUpdate {
                artifact_update: a,
            } && a.task_id == w.task_id && a.context_id == w.context_id,
            _ => true,
        }),
{
    match r.payload {
        Some(pb::StreamPayload::Task(t)) => match pb_task_to_ours(t) {
            Ok(task) => Ok(ours::StreamResponse::Task { task }),
            Err(e) => Err(e),
        },
        Some(pb::StreamPayload::Message(m)) => match pb_message_to_ours(m) {
            Ok(message) => Ok(ours::StreamResponse::Message { message }),
            Err(e) => Err(e),
        },
        Some(pb::StreamPayload::StatusUpdate(e)) => match pb_status_update_to_ours(e) {
            Ok(status_update) => Ok(ours::StreamResponse::StatusUpdate { status_update }),
            Err(err) => Err(err),
        },
        Some(pb::StreamPayload::ArtifactUpdate(e)) => match pb_artifact_update_to_ours(e) {
            Ok(artifact_update) => Ok(ours::StreamResponse::ArtifactUpdate { artifact_update }),
            Err(err) => Err(err),
        },
        None => Err(RpcStatus::internal("stream response carried no payload")),
    }
}

/// A wire send response carries a payload, and the payload is readable.
pub open spec fn send_response_readable(r: pb::SendMessageResponse) -> bool {
    match r.payload {
        Some(pb::SendMessagePayload::Task(t)) => task_readable(t),
        Some(pb::SendMessagePayload::Message(m)) => message_readable(m),
        None => false,
    }
}

/// The status answering an unreadable wire send response.
pub open spec fn send_response_error(r: pb::SendMessageResponse, s: RpcStatus) -> bool {
    match r.payload {
        Some(pb::SendMessagePayload::Task(t)) => task_error(t, s),
        Some(pb::SendMessagePayload::Message(m)) => missing_part_content(s),
        None => status_is(s, GrpcCode::Internal, "send response carried no payload"@),
    }
}

/// `q` is the wire form of `r`.
pub open spec fn wire_send_result(r: ours::SendMessageResult, q: pb::SendMessageResponse) -> bool {
    match r {
        ours::SendMessageResult::Task { task } => q.payload matches Some(
            pb::SendMessagePayload::Task(t),
        ) && wire_task(task, t),
        ours::SendMessageResult::Message { message } => q.payload matches Some(
            pb::SendMessagePayload::Message(m),
        ) && wire_message(message, m),
    }
}

/// `r` is what the wire send response `q` reads as.
pub open spec fn read_send_response(q: pb::SendMessageResponse, r: ours::SendMessageResult) -> bool {
    match q.payload {
        Some(pb::SendMessagePayload::Task(t)) => r matches ours::SendMessageResult::Task { task }
            && read_task(t, task),
        Some(pb::SendMessagePayload::Message(m)) => r matches ours::SendMessageResult::Message {
            message,
        } && read_message(m, message),
        None => false,
    }
}

/// Writes the result of `SendMessage` in its wire form.
pub fn our_send_result_to_pb(r: ours::SendMessageResult) -> (q: pb::SendMessageResponse)
    ensures
        wire_send_result(r, q),
{
    let payload = Some(
        match r {
            ours::SendMessageResult::Task { task } => pb::SendMessagePayload::Task(our_task_to_pb(task)),
            ours::SendMessageResult::Message { message } => pb::SendMessagePayload::Message(
                our_message_to_pb(message),
            ),
        },
    );
    pb::SendMessageResponse { payload }
}

/// Reads a wire send response; a response with no payload is refused, as
/// is one whose payload is unreadable.
pub fn pb_send_response_to_ours(r: pb::SendMessageResponse) -> (o: Result<ours::SendMessageResult, RpcStatus>)
    ensures
        o is Ok <==> send_response_readable(r),
        o is Ok ==> read_send_response(r, o->Ok_0),
        o is Err ==> send_response_error(r, o->Err_0),
{
    match r.payload {
        Some(pb::SendMessagePayload::Task(t)) => match pb_task_to_ours(t) {
            Ok(task) => Ok(ours::SendMessageResult::Task { task }),
            Err(e) => Err(e),
        },
        Some(pb::SendMessagePayload::Message(m)) => match pb_message_to_ours(m) {
            Ok(message) => Ok(ours::SendMessageResult::Message { message }),
            Err(e) => Err(e),
        },
        None => Err(RpcStatus::internal("send response carried no payload")),
    }
}

// --- push notification configs ---

/// `q` is the wire form of `a`.
pub open spec fn wire_auth_info(a: ours::AuthenticationInfo, q: pb::AuthenticationInfo) -> bool {
    &&& q.scheme == a.scheme
    &&& q.credentials@ == text_or_empty(a.credentials)
}

/// `a` is what the wire authentication info `q` reads as.
pub open spec fn read_auth_info(q: pb::AuthenticationInfo, a: ours::AuthenticationInfo) -> bool {
    &&& a.scheme == q.scheme
    &&& a.credentials == spec_non_empty(q.credentials)
}

/// Reads wire authentication info.
pub fn pb_auth_info_to_ours(a: pb::AuthenticationInfo) -> (r: ours::AuthenticationInfo)
    ensures
        read_auth_info(a, r),
{
    ours::AuthenticationInfo { scheme: a.scheme, credentials: non_empty(a.credentials) }
}

/// Writes authentication info in its wire form.
pub fn our_auth_info_to_pb(a: ours::AuthenticationInfo) -> (r: pb::AuthenticationInfo)
    ensures
        wire_auth_info(a, r),
{
    pb::AuthenticationInfo { scheme: a.scheme, credentials: or_empty(a.credentials) }
}

/// `q` is the wire form of `c`.
pub open spec fn wire_push_config(c: ours::TaskPushNotificationConfig, q: pb::TaskPushNotificationConfig) -> bool {
    &&& q.tenant@ == text_or_empty(c.tenant)
    &&& q.id@ == text_or_empty(c.id)
    &&& q.task_id@ == text_or_empty(c.task_id)
    &&& q.url == c.url
    &&& q.token@ == text_or_empty(c.token)
    &&& option_maps(
        c.authentication,
        q.authentication,
        |x: ours::AuthenticationInfo, y: pb::AuthenticationInfo| wire_auth_info(x, y),
    )
}

/// `c` is what the wire config `q` reads as.
pub open spec fn read_push_config(q: pb::TaskPushNotificationConfig, c: ours::TaskPushNotificationConfig) -> bool {
    &&& c.tenant == spec_non_empty(q.tenant)
    &&& c.id == spec_non_empty(q.id)
    &&& c.task_id == spec_non_empty(q.task_id)
    &&& c.url == q.url
    &&& c.token == spec_non_empty(q.token)
    &&& option_maps(
        q.authentication,
        c.authentication,
        |x: pb::AuthenticationInfo, y: ours::AuthenticationInfo| read_auth_info(x, y),
    )
}

/// Reads a wire push notification config.
pub fn pb_push_config_to_ours(c: pb::TaskPushNotificationConfig) -> (r: ours::TaskPushNotificationConfig)
    ensures
        read_push_config(c, r),
        r.id == spec_non_empty(c.id),
        r.task_id == spec_non_empty(c.task_id),
{
    let authentication = match c.authentication {
        Some(a) => Some(pb_auth_info_to_ours(a)),
        None => None,
    };
    ours::TaskPushNotificationConfig {
        tenant: non_empty(c.tenant),
        id: non_empty(c.id),
        task_id: non_empty(c.task_id),
        url: c.url,
        token: non_empty(c.token),
        authentication,
    }
}

/// Writes a push notification config in its wire form.
pub fn our_push_config_to_pb(c: ours::TaskPushNotificationConfig) -> (r: pb::TaskPushNotificationConfig)
    ensures
        wire_push_config(c, r),
        r.id@ == text_or_empty(c.id),
        r.task_id@ == text_or_empty(c.task_id),
{
    let authentication = match c.authentication {
        Some(a) => Some(our_auth_info_to_pb(a)),
        None => None,
    };
    pb::TaskPushNotificationConfig {
        tenant: or_empty(c.tenant),
        id: or_empty(c.id),
        task_id: or_empty(c.task_id),
        url: c.url,
        token: or_empty(c.token),
        authentication,
    }
}

/// Writes a page of push notification configs in its wire form.
pub fn our_list_push_notification_configs_response_to_pb(
    r: ours::ListTaskPushNotificationConfigsResponse,
) -> (q: pb::ListTaskPushNotificationConfigsResponse)
    ensures
        maps_each(
            r.configs@,
            q.configs@,
            |x: ours::TaskPushNotificationConfig, y: pb::TaskPushNotificationConfig| wire_push_config(x, y),
        ),
        q.next_page_token == r.next_page_token,
{
    pb::ListTaskPushNotificationConfigsResponse {
        configs: map_vec(r.configs, our_push_config_to_pb),
        next_page_token: r.next_page_token,
    }
}

/// Reads a wire page of push notification configs.
pub fn pb_list_push_configs_response_to_ours(
    r: pb::ListTaskPushNotificationConfigsResponse,
) -> (o: ours::ListTaskPushNotificationConfigsResponse)
    ensures
        maps_each(
            r.configs@,
            o.configs@,
            |x: pb::TaskPushNotificationConfig, y: ours::TaskPushNotificationConfig| read_push_config(x, y),
        ),
        o.next_page_token == r.next_page_token,
{
    ours::ListTaskPushNotificationConfigsResponse {
        configs: map_vec(r.configs, pb_push_config_to_ours),
        next_page_token: r.next_page_token,
    }
}

// --- task lists ---

/// Writes a page of tasks in its wire form.
pub fn our_list_tasks_response_to_pb(r: ours::ListTasksResponse) -> (q: pb::ListTasksResponse)
    ensures
        maps_each(r.tasks@, q.tasks@, |x: ours::Task, y: pb::Task| wire_task(x, y)),
        q.next_page_token == r.next_page_token,
        q.page_size == r.page_size,
        q.total_size == r.total_size,
{
    pb::ListTasksResponse {
        tasks: map_vec(r.tasks, our_task_to_pb),
        next_page_token: r.next_page_token,
        page_size: r.page_size,
        total_size: r.total_size,
    }
}

/// The status answering a list of wire tasks: that of the first
/// unreadable task.
pub open spec fn first_task_error(ts: Seq<pb::Task>, e: RpcStatus) -> bool {
    exists|i: int|
        #![trigger ts[i]]
        0 <= i < ts.len() && !task_readable(ts[i]) && task_error(ts[i], e) && forall|j: int|
            0 <= j < i ==> task_readable(#[trigger] ts[j])
}

/// Reads a list of wire tasks, stopping at the first unreadable one.
fn pb_tasks_to_ours(tasks: Vec<pb::Task>) -> (r: Result<Vec<ours::Task>, RpcStatus>)
    ensures
        r is Ok <==> forall|i: int| 0 <= i < tasks@.len() ==> task_readable(#[trigger] tasks@[i]),
        r is Ok ==> maps_each(tasks@, r->Ok_0@, |x: pb::Task, y: ours::Task| read_task(x, y)),
        r is Err ==> first_task_error(tasks@, r->Err_0),
{
    let ghost src = tasks@;
    let mut out: Vec<ours::Task> = Vec::new();
    for t in it: tasks
        invariant
            it.seq() == src,
            out@.len() == it.index(),
            forall|j: int| 0 <= j < it.index() ==> read_task(src[j], #[trigger] out@[j]),
            forall|j: int| 0 <= j < it.index() ==> task_readable(#[trigger] src[j]),
    {
        let ghost k = it.index();
        match pb_task_to_ours(t) {
            Ok(task) => out.push(task),
            Err(e) => {
                assert(!task_readable(src[k]) && task_error(src[k], e));
                return Err(e);
            },
        }
    }
    Ok(out)
}

/// Reads a wire page of tasks; refused at the first unreadable task.
pub fn pb_list_tasks_response_to_ours(r: pb::ListTasksResponse) -> (o: Result<ours::ListTasksResponse, RpcStatus>)
    ensures
        o is Ok <==> forall|i: int| 0 <= i < r.tasks@.len() ==> task_readable(#[trigger] r.tasks@[i]),
        o is Ok ==> maps_each(r.tasks@, o->Ok_0.tasks@, |x: pb::Task, y: ours::Task| read_task(x, y)),
        o is Ok ==> o->Ok_0.next_page_token == r.next_page_token && o->Ok_0.page_size == r.page_size
            && o->Ok_0.total_size == r.total_size,
        o is Err ==> first_task_error(r.tasks@, o->Err_0),
{
    let tasks = match pb_tasks_to_ours(r.tasks) {
        Ok(t) => t,
        Err(e) => return Err(e),
    };
    Ok(
        ours::ListTasksResponse {
            tasks,
            next_page_token: r.next_page_token,
            page_size: r.page_size,
            total_size: r.total_size,
        },
    )
}

// --- requests ---

/// `q` is the wire form of `c`.
pub open spec fn wire_send_config(c: ours::SendMessageConfiguration, q: pb::SendMessageConfiguration) -> bool {
    &&& q.accepted_output_modes == c.accepted_output_modes
    &&& option_maps(
        c.task_push_notification_config,
        q.task_push_notification_config,
        |x: ours::TaskPushNotificationConfig, y: pb::TaskPushNotificationConfig| wire_push_config(x, y),
    )
    &&& q.history_length == c.history_length
    &&& q.return_immediately == c.return_immediately
}

/// `c` is what the wire configuration `q` reads as.
pub open spec fn read_send_config(q: pb::SendMessageConfiguration, c: ours::SendMessageConfiguration) -> bool {
    &&& c.accepted_output_modes == q.accepted_output_modes
    &&& option_maps(
        q.task_push_notification_config,
        c.task_push_notification_config,
        |x: pb::TaskPushNotificationConfig, y: ours::TaskPushNotificationConfig| read_push_config(x, y),
    )
    &&& c.history_length == q.history_length
    &&& c.return_immediately == q.return_immediately
}

/// Reads a wire `SendMessage` configuration.
pub fn pb_send_config_to_ours(c: pb::SendMessageConfiguration) -> (r: ours::SendMessageConfiguration)
    ensures
        read_send_config(c, r),
{
    let task_push_notification_config = match c.task_push_notification_config {
        Some(p) => Some(pb_push_config_to_ours(p)),
        None => None,
    };
    ours::SendMessageConfiguration {
        accepted_output_modes: c.accepted_output_modes,
        task_push_notification_config,
        history_length: c.history_length,
        return_immediately: c.return_immediately,
    }
}

/// Writes a `SendMessage` configuration in its wire form.
pub fn our_send_config_to_pb(c: ours::SendMessageConfiguration) -> (r: pb::SendMessageConfiguration)
    ensures
        wire_send_config(c, r),
{
    let task_push_notification_config = match c.task_push_notification_config {
        Some(p) => Some(our_push_config_to_pb(p)),
        None => None,
    };
    pb::SendMessageConfiguration {
        accepted_output_modes: c.accepted_output_modes,
        task_push_notification_config,
        history_length: c.history_length,
        return_immediately: c.return_immediately,
    }
}

/// A wire `SendMessage` request carries a readable message.
pub open spec fn send_message_request_readable(r: pb::SendMessageRequest) -> bool {
    r.message is Some && message_readable(r.message->0)
}

/// The status answering an unreadable wire `SendMessage` request.
pub open spec fn send_message_request_error(r: pb::SendMessageRequest, e: RpcStatus) -> bool {
    if r.message is None {
        status_is(e, GrpcCode::InvalidArgument, "message is required"@)
    } else {
        missing_part_content(e)
    }
}

/// `q` is the wire form of `r`.
pub open spec fn wire_send_message_request(r: ours::SendMessageRequest, q: pb::SendMessageRequest) -> bool {
    &&& q.tenant@ == text_or_empty(r.tenant)
    &&& q.message is Some
    &&& wire_message(r.message, q.message->0)
    &&& option_maps(
        r.configuration,
        q.configuration,
        |x: ours::SendMessageConfiguration, y: pb::SendMessageConfiguration| wire_send_config(x, y),
    )
    &&& q.metadata == r.metadata
}

/// `r` is what the wire request `q` reads as.
pub open spec fn read_send_message_request(q: pb::SendMessageRequest, r: ours::SendMessageRequest) -> bool {
    &&& r.tenant == spec_non_empty(q.tenant)
    &&& q.message is Some
    &&& read_message(q.message->0, r.message)
    &&& option_maps(
        q.configuration,
        r.configuration,
        |x: pb::SendMessageConfiguration, y: ours::SendMessageConfiguration| read_send_config(x, y),
    )
    &&& r.metadata == q.metadata
}

/// Reads a wire `SendMessage` request; refused without a message, or with
/// a part lacking content.
pub fn pb_send_message_request_to_ours(r: pb::SendMessageRequest) -> (o: Result<ours::SendMessageRequest, RpcStatus>)
    ensures
        o is Ok <==> send_message_request_readable(r),
        o is Ok ==> read_send_message_request(r, o->Ok_0),
        o is Err ==> send_message_request_error(r, o->Err_0),
{
    let message = match r.message {
        Some(m) => m,
        None => return Err(RpcStatus::invalid_argument("message is required")),
    };
    let message = match pb_message_to_ours(message) {
        Ok(m) => m,
        Err(e) => return Err(e),
    };
    let configuration = match r.configuration {
        Some(c) => Some(pb_send_config_to_ours(c)),
        None => None,
    };
    Ok(
        ours::SendMessageRequest {
            tenant: non_empty(r.tenant),
            message,
            configuration,
            metadata: r.metadata,
        },
    )
}

/// Writes a `SendMessage` request in its wire form.
pub fn our_send_message_request_to_pb(r: ours::SendMessageRequest) -> (q: pb::SendMessageRequest)
    ensures
        wire_send_message_request(r, q),
{
    let configuration = match r.configuration {
        Some(c) => Some(our_send_config_to_pb(c)),
        None => None,
    };
    pb::SendMessageRequest {
        tenant: or_empty(r.tenant),
        message: Some(our_message_to_pb(r.message)),
        configuration,
        metadata: r.metadata,
    }
}

/// Reads a wire `GetTask` request.
pub fn pb_get_task_request_to_ours(r: pb::GetTaskRequest) -> (o: ours::GetTaskRequest)
    ensures
        o.tenant == spec_non_empty(r.tenant),
        o.id == r.id,
        o.history_length == r.history_length,
{
    ours::GetTaskRequest { tenant: non_empty(r.tenant), id: r.id, history_length: r.history_length }
}

/// Writes a `GetTask` request in its wire form.
pub fn our_get_task_request_to_pb(r: ours::GetTaskRequest) -> (q: pb::GetTaskRequest)
    ensures
        q.tenant@ == text_or_empty(r.tenant),
        q.id == r.id,
        q.history_length == r.history_length,
{
    pb::GetTaskRequest { tenant: or_empty(r.tenant), id: r.id, history_length: r.history_length }
}

/// The status filter a wire `ListTasks` status number reads as: `0`
/// (unspecified) is no filter.
pub open spec fn spec_read_status_filter(n: i32) -> Option<ours::TaskState> {
    if n == 0 {
        None
    } else {
        Some(spec_read_task_state(n))
    }
}

/// The wire number of a status filter: no filter is `0`.
pub open spec fn spec_write_status_filter(s: Option<ours::TaskState>) -> i32 {
    match s {
        Some(state) => spec_write_task_state(state),
        None => 0,
    }
}

/// `o` is what the wire `ListTasks` request `r` reads as.
pub open spec fn read_list_tasks_request(r: pb::ListTasksRequest, o: ours::ListTasksRequest) -> bool {
    &&& o.tenant == spec_non_empty(r.tenant)
    &&& o.context_id == spec_non_empty(r.context_id)
    &&& o.status == spec_read_status_filter(r.status)
    &&& o.page_size == r.page_size
    &&& o.page_token == spec_non_empty(r.page_token)
    &&& o.history_length == r.history_length
    &&& o.status_timestamp_after == spec_read_opt_timestamp(r.status_timestamp_after)
    &&& o.include_artifacts == r.include_artifacts
}

/// `q` is the wire form of the `ListTasks` request `r`.
pub open spec fn wire_list_tasks_request(r: ours::ListTasksRequest, q: pb::ListTasksRequest) -> bool {
    &&& q.tenant@ == text_or_empty(r.tenant)
    &&& q.context_id@ == text_or_empty(r.context_id)
    &&& q.status == spec_write_status_filter(r.status)
    &&& q.page_size == r.page_size
    &&& q.page_token@ == text_or_empty(r.page_token)
    &&& q.history_length == r.history_length
    &&& q.status_timestamp_after == spec_wire_opt_timestamp(r.status_timestamp_after)
    &&& q.include_artifacts == r.include_artifacts
}

/// Reads a wire `ListTasks` request.
pub fn pb_list_tasks_request_to_ours(r: pb::ListTasksRequest) -> (o: ours::ListTasksRequest)
    ensures
        read_list_tasks_request(r, o),
        o.page_size == r.page_size,
        o.history_length == r.history_length,
{
    let status = if r.status == 0 {
        None
    } else {
        Some(pb_task_state_to_ours(r.status))
    };
    ours::ListTasksRequest {
        tenant: non_empty(r.tenant),
        context_id: non_empty(r.context_id),
        status,
        page_size: r.page_size,
        page_token: non_empty(r.page_token),
        history_length: r.history_length,
        status_timestamp_after: opt_timestamp_to_chrono(r.status_timestamp_after),
        include_artifacts: r.include_artifacts,
    }
}

/// Writes a `ListTasks` request in its wire form.
pub fn our_list_tasks_request_to_pb(r: ours::ListTasksRequest) -> (q: pb::ListTasksRequest)
    ensures
        wire_list_tasks_request(r, q),
        q.page_size == r.page_size,
        q.history_length == r.history_length,
{
    let status = match r.status {
        Some(s) => our_task_state_to_pb(s).number(),
        None => 0,
    };
    pb::ListTasksRequest {
        tenant: or_empty(r.tenant),
        context_id: or_empty(r.context_id),
        status,
        page_size: r.page_size,
        page_token: or_empty(r.page_token),
        history_length: r.history_length,
        status_timestamp_after: opt_chrono_to_timestamp(r.status_timestamp_after),
        include_artifacts: r.include_artifacts,
    }
}

/// Reads a wire `CancelTask` request.
pub fn pb_cancel_task_request_to_ours(r: pb::CancelTaskRequest) -> (o: ours::CancelTaskRequest)
    ensures
        o.tenant == spec_non_empty(r.tenant),
        o.id == r.id,
        o.metadata == r.metadata,
{
    ours::CancelTaskRequest { tenant: non_empty(r.tenant), id: r.id, metadata: r.metadata }
}

/// Writes a `CancelTask` request in its wire form.
pub fn our_cancel_task_request_to_pb(r: ours::CancelTaskRequest) -> (q: pb::CancelTaskRequest)
    ensures
        q.tenant@ == text_or_empty(r.tenant),
        q.id == r.id,
        q.metadata == r.metadata,
{
    pb::CancelTaskRequest { tenant: or_empty(r.tenant), id: r.id, metadata: r.metadata }
}

/// Reads a wire `SubscribeToTask` request.
pub fn pb_subscribe_to_task_request_to_ours(r: pb::SubscribeToTaskRequest) -> (o: ours::SubscribeToTaskRequest)
    ensures
        o.tenant == spec_non_empty(r.tenant),
        o.id == r.id,
{
    ours::SubscribeToTaskRequest { tenant: non_empty(r.tenant), id: r.id }
}

/// Writes a `SubscribeToTask` request in its wire form.
pub fn our_subscribe_request_to_pb(r: ours::SubscribeToTaskRequest) -> (q: pb::SubscribeToTaskRequest)
    ensures
        q.tenant@ == text_or_empty(r.tenant),
        q.id == r.id,
{
    pb::SubscribeToTaskRequest { tenant: or_empty(r.tenant), id: r.id }
}

/// Reads a wire `GetTaskPushNotificationConfig` request.
pub fn pb_get_push_notification_config_request_to_ours(
    r: pb::GetTaskPushNotificationConfigRequest,
) -> (o: ours::GetTaskPushNotificationConfigRequest)
    ensures
        o.tenant == spec_non_empty(r.tenant),
        o.task_id == r.task_id,
        o.id == r.id,
{
    ours::GetTaskPushNotificationConfigRequest { tenant: non_empty(r.tenant), task_id: r.task_id, id: r.id }
}

/// Writes a `GetTaskPushNotificationConfig` request in its wire form.
pub fn our_get_push_config_request_to_pb(
    r: ours::GetTaskPushNotificationConfigRequest,
) -> (q: pb::GetTaskPushNotificationConfigRequest)
    ensures
        q.tenant@ == text_or_empty(r.tenant),
        q.task_id == r.task_id,
        q.id == r.id,
{
    pb::GetTaskPushNotificationConfigRequest { tenant: or_empty(r.tenant), task_id: r.task_id, id: r.id }
}

/// Reads a wire `DeleteTaskPushNotificationConfig` request.
pub fn pb_delete_push_notification_config_request_to_ours(
    r: pb::DeleteTaskPushNotificationConfigRequest,
) -> (o: ours::DeleteTaskPushNotificationConfigRequest)
    ensures
        o.tenant == spec_non_empty(r.tenant),
        o.task_id == r.task_id,
        o.id == r.id,
{
    ours::DeleteTaskPushNotificationConfigRequest { tenant: non_empty(r.tenant), task_id: r.task_id, id: r.id }
}

/// Writes a `DeleteTaskPushNotificationConfig` request in its wire form.
pub fn our_delete_push_config_request_to_pb(
    r: ours::DeleteTaskPushNotificationConfigRequest,
) -> (q: pb::DeleteTaskPushNotificationConfigRequest)
    ensures
        q.tenant@ == text_or_empty(r.tenant),
        q.task_id == r.task_id,
        q.id == r.id,
{
    pb::DeleteTaskPushNotificationConfigRequest { tenant: or_empty(r.tenant), task_id: r.task_id, id: r.id }
}

/// Reads a wire `ListTaskPushNotificationConfigs` request: a page size of
/// `0` is no page size.
pub fn pb_list_push_notification_configs_request_to_ours(
    r: pb::ListTaskPushNotificationConfigsRequest,
) -> (o: ours::ListTaskPushNotificationConfigsRequest)
    ensures
        o.tenant == spec_non_empty(r.tenant),
        o.task_id == r.task_id,
        o.page_size == (if r.page_size == 0 { None } else { Some(r.page_size) }),
        o.page_token == spec_non_empty(r.page_token),
{
    ours::ListTaskPushNotificationConfigsRequest {
        tenant: non_empty(r.tenant),
        task_id: r.task_id,
        page_size: if r.page_size == 0 {
            None
        } else {
            Some(r.page_size)
        },
        page_token: non_empty(r.page_token),
    }
}

/// Writes a `ListTaskPushNotificationConfigs` request in its wire form: no
/// page size is `0`.
pub fn our_list_push_configs_request_to_pb(
    r: ours::ListTaskPushNotificationConfigsRequest,
) -> (q: pb::ListTaskPushNotificationConfigsRequest)
    ensures
        q.tenant@ == text_or_empty(r.tenant),
        q.task_id == r.task_id,
        q.page_size == (match r.page_size {
            Some(n) => n,
            None => 0,
        }),
        q.page_token@ == text_or_empty(r.page_token),
{
    pb::ListTaskPushNotificationConfigsRequest {
        tenant: or_empty(r.tenant),
        task_id: r.task_id,
        page_size: r.page_size.unwrap_or(0),
        page_token: or_empty(r.page_token),
    }
}

// --- AgentCard pieces ---

/// `q` is the wire form of `i`.
pub open spec fn wire_interface(i: ours::AgentInterface, q: pb::AgentInterface) -> bool {
    &&& q.url == i.url
    &&& q.protocol_binding == i.protocol_binding
    &&& q.tenant@ == text_or_empty(i.tenant)
    &&& q.protocol_version == i.protocol_version
}

/// `i` is what the wire interface `q` reads as.
pub open spec fn read_interface(q: pb::AgentInterface, i: ours::AgentInterface) -> bool {
    &&& i.url == q.url
    &&& i.protocol_binding == q.protocol_binding
    &&& i.tenant == spec_non_empty(q.tenant)
    &&& i.protocol_version == q.protocol_version
}

/// Writes an agent interface in its wire form.
pub fn our_agent_interface_to_pb(i: ours::AgentInterface) -> (r: pb::AgentInterface)
    ensures
        wire_interface(i, r),
{
    pb::AgentInterface {
        url: i.url,
        protocol_binding: i.protocol_binding,
        tenant: or_empty(i.tenant),
        protocol_version: i.protocol_version,
    }
}

/// Reads a wire agent interface.
pub fn pb_agent_interface_to_ours(i: pb::AgentInterface) -> (r: ours::AgentInterface)
    ensures
        read_interface(i, r),
{
    ours::AgentInterface {
        url: i.url,
        protocol_binding: i.protocol_binding,
        tenant: non_empty(i.tenant),
        protocol_version: i.protocol_version,
    }
}

/// Writes an agent provider in its wire form.
pub fn our_agent_provider_to_pb(p: ours::AgentProvider) -> (r: pb::AgentProvider)
    ensures
        r.url == p.url,
        r.organization == p.organization,
{
    pb::AgentProvider { url: p.url, organization: p.organization }
}

/// Reads a wire agent provider.
pub fn pb_agent_provider_to_ours(p: pb::AgentProvider) -> (r: ours::AgentProvider)
    ensures
        r.url == p.url,
        r.organization == p.organization,
{
    ours::AgentProvider { url: p.url, organization: p.organization }
}

/// `q` carries the same fields as `e`.
pub open spec fn same_extension(e: ours::AgentExtension, q: pb::AgentExtension) -> bool {
    &&& q.uri == e.uri
    &&& q.description == e.description
    &&& q.required == e.required
    &&& q.params == e.params
}

/// Writes an agent extension in its wire form.
pub fn our_agent_extension_to_pb(e: ours::AgentExtension) -> (r: pb::AgentExtension)
    ensures
        same_extension(e, r),
{
    pb::AgentExtension { uri: e.uri, description: e.description, required: e.required, params: e.params }
}

/// Reads a wire agent extension.
pub fn pb_agent_extension_to_ours(e: pb::AgentExtension) -> (r: ours::AgentExtension)
    ensures
        same_extension(r, e),
{
    ours::AgentExtension { uri: e.uri, description: e.description, required: e.required, params: e.params }
}

/// `q` carries the same capabilities as `c`.
pub open spec fn same_capabilities(c: ours::AgentCapabilities, q: pb::AgentCapabilities) -> bool {
    &&& q.streaming == c.streaming
    &&& q.push_notifications == c.push_notifications
    &&& maps_each(c.extensions@, q.extensions@, |x: ours::AgentExtension, y: pb::AgentExtension| same_extension(x, y))
    &&& q.extended_agent_card == c.extended_agent_card
}

/// Writes agent capabilities in their wire form.
pub fn our_agent_capabilities_to_pb(c: ours::AgentCapabilities) -> (r: pb::AgentCapabilities)
    ensures
        same_capabilities(c, r),
        r.streaming == c.streaming,
        r.push_notifications == c.push_notifications,
        r.extended_agent_card == c.extended_agent_card,
{
    pb::AgentCapabilities {
        streaming: c.streaming,
        push_notifications: c.push_notifications,
        extensions: map_vec(c.extensions, our_agent_extension_to_pb),
        extended_agent_card: c.extended_agent_card,
    }
}

/// Reads wire agent capabilities.
pub fn pb_agent_capabilities_to_ours(c: pb::AgentCapabilities) -> (r: ours::AgentCapabilities)
    ensures
        same_capabilities(r, c),
        r.streaming == c.streaming,
        r.push_notifications == c.push_notifications,
        r.extended_agent_card == c.extended_agent_card,
{
    ours::AgentCapabilities {
        streaming: c.streaming,
        push_notifications: c.push_notifications,
        extensions: map_vec(c.extensions, pb_agent_extension_to_ours),
        extended_agent_card: c.extended_agent_card,
    }
}

/// Writes a scope list in its wire form.
pub fn our_string_list_to_pb(s: ours::StringList) -> (r: pb::StringList)
    ensures
        r.list == s.list,
{
    pb::StringList { list: s.list }
}

/// A requirement entry: the same scheme name and scopes.
pub open spec fn same_scheme_scopes(a: (String, ours::StringList), b: (String, pb::StringList)) -> bool {
    b.0 == a.0 && b.1.list == a.1.list
}

/// `q` names the same schemes with the same scopes as `s`, in order.
pub open spec fn same_requirement(s: ours::SecurityRequirement, q: pb::SecurityRequirement) -> bool {
    maps_each(
        s.schemes@,
        q.schemes@,
        |a: (String, ours::StringList), b: (String, pb::StringList)| same_scheme_scopes(a, b),
    )
}

fn scheme_scopes_to_pb(e: (String, ours::StringList)) -> (r: (String, pb::StringList))
    ensures
        same_scheme_scopes(e, r),
{
    let (k, v) = e;
    (k, our_string_list_to_pb(v))
}

fn scheme_scopes_to_ours(e: (String, pb::StringList)) -> (r: (String, ours::StringList))
    ensures
        same_scheme_scopes(r, e),
{
    let (k, v) = e;
    (k, ours::StringList { list: v.list })
}

/// Writes a security requirement in its wire form.
pub fn our_security_requirement_to_pb(s: ours::SecurityRequirement) -> (r: pb::SecurityRequirement)
    ensures
        same_requirement(s, r),
{
    pb::SecurityRequirement { schemes: map_vec(s.schemes, scheme_scopes_to_pb) }
}

/// Reads a wire security requirement.
pub fn pb_security_requirement_to_ours(s: pb::SecurityRequirement) -> (r: ours::SecurityRequirement)
    ensures
        same_requirement(r, s),
{
    ours::SecurityRequirement { schemes: map_vec(s.schemes, scheme_scopes_to_ours) }
}

/// `q` carries the same fields as `s`.
pub open spec fn same_skill(s: ours::AgentSkill, q: pb::AgentSkill) -> bool {
    &&& q.id == s.id
    &&& q.name == s.name
    &&& q.description == s.description
    &&& q.tags == s.tags
    &&& q.examples == s.examples
    &&& q.input_modes == s.input_modes
    &&& q.output_modes == s.output_modes
    &&& maps_each(
        s.security_requirements@,
        q.security_requirements@,
        |x: ours::SecurityRequirement, y: pb::SecurityRequirement| same_requirement(x, y),
    )
}

/// Writes an agent skill in its wire form.
pub fn our_agent_skill_to_pb(s: ours::AgentSkill) -> (r: pb::AgentSkill)
    ensures
        same_skill(s, r),
{
    pb::AgentSkill {
        id: s.id,
        name: s.name,
        description: s.description,
        tags: s.tags,
        examples: s.examples,
        input_modes: s.input_modes,
        output_modes: s.output_modes,
        security_requirements: map_vec(s.security_requirements, our_security_requirement_to_pb),
    }
}

/// Reads a wire agent skill.
pub fn pb_agent_skill_to_ours(s: pb::AgentSkill) -> (r: ours::AgentSkill)
    ensures
        same_skill(r, s),
{
    ours::AgentSkill {
        id: s.id,
        name: s.name,
        description: s.description,
        tags: s.tags,
        examples: s.examples,
        input_modes: s.input_modes,
        output_modes: s.output_modes,
        security_requirements: map_vec(s.security_requirements, pb_security_requirement_to_ours),
    }
}

/// `q` carries the same fields as `s`.
pub open spec fn same_signature(s: ours::AgentCardSignature, q: pb::AgentCardSignature) -> bool {
    &&& q.protected == s.protected
    &&& q.signature == s.signature
    &&& q.header == s.header
}

/// Writes an agent card signature in its wire form.
pub fn our_agent_card_signature_to_pb(s: ours::AgentCardSignature) -> (r: pb::AgentCardSignature)
    ensures
        same_signature(s, r),
{
    pb::AgentCardSignature { protected: s.protected, signature: s.signature, header: s.header }
}

/// Reads a wire agent card signature.
pub fn pb_agent_card_signature_to_ours(s: pb::AgentCardSignature) -> (r: ours::AgentCardSignature)
    ensures
        same_signature(r, s),
{
    ours::AgentCardSignature { protected: s.protected, signature: s.signature, header: s.header }
}

// --- security schemes ---

/// Writes an API key scheme in its wire form.
pub fn our_api_key_scheme_to_pb(s: ours::ApiKeySecurityScheme) -> (r: pb::ApiKeySecurityScheme)
    ensures
        r.description@ == text_or_empty(s.description),
        r.location == s.location,
        r.name == s.name,
{
    pb::ApiKeySecurityScheme { description: or_empty(s.description), location: s.location, name: s.name }
}

/// Writes an HTTP authentication scheme in its wire form.
pub fn our_http_auth_scheme_to_pb(s: ours::HttpAuthSecurityScheme) -> (r: pb::HttpAuthSecurityScheme)
    ensures
        r.description@ == text_or_empty(s.description),
        r.scheme == s.scheme,
        r.bearer_format@ == text_or_empty(s.bearer_format),
{
    pb::HttpAuthSecurityScheme {
        description: or_empty(s.description),
        scheme: s.scheme,
        bearer_format: or_empty(s.bearer_format),
    }
}

/// Writes an OpenID Connect scheme in its wire form.
pub fn our_oidc_scheme_to_pb(s: ours::OpenIdConnectSecurityScheme) -> (r: pb::OpenIdConnectSecurityScheme)
    ensures
        r.description@ == text_or_empty(s.description),
        r.open_id_connect_url == s.open_id_connect_url,
{
    pb::OpenIdConnectSecurityScheme {
        description: or_empty(s.description),
        open_id_connect_url: s.open_id_connect_url,
    }
}

/// Writes a mutual TLS scheme in its wire form.
pub fn our_mtls_scheme_to_pb(s: ours::MutualTlsSecurityScheme) -> (r: pb::MutualTlsSecurityScheme)
    ensures
        r.description@ == text_or_empty(s.description),
{
    pb::MutualTlsSecurityScheme { description: or_empty(s.description) }
}

/// Writes an authorization code flow in its wire form.
pub fn our_auth_code_flow_to_pb(f: ours::AuthorizationCodeOAuthFlow) -> (r: pb::AuthorizationCodeOAuthFlow)
    ensures
        r.authorization_url == f.authorization_url,
        r.token_url == f.token_url,
        r.refresh_url@ == text_or_empty(f.refresh_url),
        r.scopes == f.scopes,
        r.pkce_required == f.pkce_required,
{
    pb::AuthorizationCodeOAuthFlow {
        authorization_url: f.authorization_url,
        token_url: f.token_url,
        refresh_url: or_empty(f.refresh_url),
        scopes: f.scopes,
        pkce_required: f.pkce_required,
    }
}

/// Writes a client credentials flow in its wire form.
pub fn our_client_creds_flow_to_pb(f: ours::ClientCredentialsOAuthFlow) -> (r: pb::ClientCredentialsOAuthFlow)
    ensures
        r.token_url == f.token_url,
        r.refresh_url@ == text_or_empty(f.refresh_url),
        r.scopes == f.scopes,
{
    pb::ClientCredentialsOAuthFlow {
        token_url: f.token_url,
        refresh_url: or_empty(f.refresh_url),
        scopes: f.scopes,
    }
}

/// Writes an implicit flow in its wire form.
pub fn our_implicit_flow_to_pb(f: ours::ImplicitOAuthFlow) -> (r: pb::ImplicitOAuthFlow)
    ensures
        r.authorization_url == f.authorization_url,
        r.refresh_url@ == text_or_empty(f.refresh_url),
        r.scopes == f.scopes,
{
    pb::ImplicitOAuthFlow {
        authorization_url: f.authorization_url,
        refresh_url: or_empty(f.refresh_url),
        scopes: f.scopes,
    }
}

/// Writes a password flow in its wire form.
pub fn our_password_flow_to_pb(f: ours::PasswordOAuthFlow) -> (r: pb::PasswordOAuthFlow)
    ensures
        r.token_url == f.token_url,
        r.refresh_url@ == text_or_empty(f.refresh_url),
        r.scopes == f.scopes,
{
    pb::PasswordOAuthFlow { token_url: f.token_url, refresh_url: or_empty(f.refresh_url), scopes: f.scopes }
}

/// Writes a device code flow in its wire form.
pub fn our_device_code_flow_to_pb(f: ours::DeviceCodeOAuthFlow) -> (r: pb::DeviceCodeOAuthFlow)
    ensures
        r.device_authorization_url == f.device_authorization_url,
        r.token_url == f.token_url,
        r.refresh_url@ == text_or_empty(f.refresh_url),
        r.scopes == f.scopes,
{
    pb::DeviceCodeOAuthFlow {
        device_authorization_url: f.device_authorization_url,
        token_url: f.token_url,
        refresh_url: or_empty(f.refresh_url),
        scopes: f.scopes,
    }
}

/// `q` is the wire form of the flow `f`.
pub open spec fn wire_oauth_flows(f: ours::OAuthFlows, q: pb::OAuthFlows) -> bool {
    match f {
        ours::OAuthFlows::AuthorizationCode { authorization_code: a } => q.flow matches Some(
            pb::OAuthFlow::AuthorizationCode(b),
        ) && b.authorization_url == a.authorization_url && b.token_url == a.token_url
            && b.refresh_url@ == text_or_empty(a.refresh_url) && b.scopes == a.scopes
            && b.pkce_required == a.pkce_required,
        ours::OAuthFlows::ClientCredentials { client_credentials: a } => q.flow matches Some(
            pb::OAuthFlow::ClientCredentials(b),
        ) && b.token_url == a.token_url && b.refresh_url@ == text_or_empty(a.refresh_url)
            && b.scopes == a.scopes,
        ours::OAuthFlows::Implicit { implicit: a } => q.flow matches Some(pb::OAuthFlow::Implicit(b))
            && b.authorization_url == a.authorization_url && b.refresh_url@ == text_or_empty(
            a.refresh_url,
        ) && b.scopes == a.scopes,
        ours::OAuthFlows::Password { password: a } => q.flow matches Some(pb::OAuthFlow::Password(b))
            && b.token_url == a.token_url && b.refresh_url@ == text_or_empty(a.refresh_url)
            && b.scopes == a.scopes,
        ours::OAuthFlows::DeviceCode { device_code: a } => q.flow matches Some(
            pb::OAuthFlow::DeviceCode(b),
        ) && b.device_authorization_url == a.device_authorization_url && b.token_url == a.token_url
            && b.refresh_url@ == text_or_empty(a.refresh_url) && b.scopes == a.scopes,
    }
}

/// `f` is what the wire flow `q` reads as (which needs `q` to name a flow).
pub open spec fn read_oauth_flows(q: pb::OAuthFlows, f: ours::OAuthFlows) -> bool {
    match q.flow {
        Some(pb::OAuthFlow::AuthorizationCode(b)) => f matches ours::OAuthFlows::AuthorizationCode {
            authorization_code: a,
        } && a.authorization_url == b.authorization_url && a.token_url == b.token_url
            && a.refresh_url == spec_non_empty(b.refresh_url) && a.scopes == b.scopes
            && a.pkce_required == b.pkce_required,
        Some(pb::OAuthFlow::ClientCredentials(b)) => f matches ours::OAuthFlows::ClientCredentials {
            client_credentials: a,
        } && a.token_url == b.token_url && a.refresh_url == spec_non_empty(b.refresh_url)
            && a.scopes == b.scopes,
        Some(pb::OAuthFlow::Implicit(b)) => f matches ours::OAuthFlows::Implicit { implicit: a }
            && a.authorization_url == b.authorization_url && a.refresh_url == spec_non_empty(
            b.refresh_url,
        ) && a.scopes == b.scopes,
        Some(pb::OAuthFlow::Password(b)) => f matches ours::OAuthFlows::Password { password: a }
            && a.token_url == b.token_url && a.refresh_url == spec_non_empty(b.refresh_url)
            && a.scopes == b.scopes,
        Some(pb::OAuthFlow::DeviceCode(b)) => f matches ours::OAuthFlows::DeviceCode { device_code: a }
            && a.device_authorization_url == b.device_authorization_url && a.token_url == b.token_url
            && a.refresh_url == spec_non_empty(b.refresh_url) && a.scopes == b.scopes,
        None => false,
    }
}

/// Writes an OAuth 2.0 flow in its wire form.
pub fn our_oauth_flows_to_pb(f: ours::OAuthFlows) -> (r: pb::OAuthFlows)
    ensures
        wire_oauth_flows(f, r),
{
    let flow = Some(
        match f {
            ours::OAuthFlows::AuthorizationCode { authorization_code } => pb::OAuthFlow::AuthorizationCode(
                our_auth_code_flow_to_pb(authorization_code),
            ),
            ours::OAuthFlows::ClientCredentials { client_credentials } => pb::OAuthFlow::ClientCredentials(
                our_client_creds_flow_to_pb(client_credentials),
            ),
            ours::OAuthFlows::Implicit { implicit } => pb::OAuthFlow::Implicit(
                our_implicit_flow_to_pb(implicit),
            ),
            ours::OAuthFlows::Password { password } => pb::OAuthFlow::Password(
                our_password_flow_to_pb(password),
            ),
            ours::OAuthFlows::DeviceCode { device_code } => pb::OAuthFlow::DeviceCode(
                our_device_code_flow_to_pb(device_code),
            ),
        },
    );
    pb::OAuthFlows { flow }
}

/// Reads a wire OAuth 2.0 flow; `None` when it names no flow.
pub fn pb_oauth_flows_to_ours(f: pb::OAuthFlows) -> (r: Option<ours::OAuthFlows>)
    ensures
        r is Some <==> f.flow is Some,
        r is Some ==> read_oauth_flows(f, r->0),
{
    match f.flow {
        Some(pb::OAuthFlow::AuthorizationCode(f)) => Some(
            ours::OAuthFlows::AuthorizationCode {
                authorization_code: ours::AuthorizationCodeOAuthFlow {
                    authorization_url: f.authorization_url,
                    token_url: f.token_url,
                    refresh_url: non_empty(f.refresh_url),
                    scopes: f.scopes,
                    pkce_required: f.pkce_required,
                },
            },
        ),
        Some(pb::OAuthFlow::ClientCredentials(f)) => Some(
            ours::OAuthFlows::ClientCredentials {
                client_credentials: ours::ClientCredentialsOAuthFlow {
                    token_url: f.token_url,
                    refresh_url: non_empty(f.refresh_url),
                    scopes: f.scopes,
                },
            },
        ),
        Some(pb::OAuthFlow::Implicit(f)) => Some(
            ours::OAuthFlows::Implicit {
                implicit: ours::ImplicitOAuthFlow {
                    authorization_url: f.authorization_url,
                    refresh_url: non_empty(f.refresh_url),
                    scopes: f.scopes,
                },
            },
        ),
        Some(pb::OAuthFlow::Password(f)) => Some(
            ours::OAuthFlows::Password {
                password: ours::PasswordOAuthFlow {
                    token_url: f.token_url,
                    refresh_url: non_empty(f.refresh_url),
                    scopes: f.scopes,
                },
            },
        ),
        Some(pb::OAuthFlow::DeviceCode(f)) => Some(
            ours::OAuthFlows::DeviceCode {
                device_code: ours::DeviceCodeOAuthFlow {
                    device_authorization_url: f.device_authorization_url,
                    token_url: f.token_url,
                    refresh_url: non_empty(f.refresh_url),
                    scopes: f.scopes,
                },
            },
        ),
        None => None,
    }
}

/// `q` is the wire form of the OAuth 2.0 scheme `s`.
pub open spec fn wire_oauth2_scheme(s: ours::OAuth2SecurityScheme, q: pb::OAuth2SecurityScheme) -> bool {
    &&& q.description@ == text_or_empty(s.description)
    &&& q.flows is Some
    &&& wire_oauth_flows(s.flows, q.flows->0)
    &&& q.oauth2_metadata_url@ == text_or_empty(s.oauth2_metadata_url)
}

/// Writes an OAuth 2.0 scheme in its wire form.
pub fn our_oauth2_scheme_to_pb(s: ours::OAuth2SecurityScheme) -> (r: pb::OAuth2SecurityScheme)
    ensures
        wire_oauth2_scheme(s, r),
{
    pb::OAuth2SecurityScheme {
        description: or_empty(s.description),
        flows: Some(our_oauth_flows_to_pb(s.flows)),
        oauth2_metadata_url: or_empty(s.oauth2_metadata_url),
    }
}

/// `q` is the wire form of the scheme `s`.
pub open spec fn wire_security_scheme(s: ours::SecurityScheme, q: pb::SecurityScheme) -> bool {
    match s {
        ours::SecurityScheme::ApiKey { api_key_security_scheme: a } => q.scheme matches Some(
            pb::Scheme::ApiKeySecurityScheme(b),
        ) && b.description@ == text_or_empty(a.description) && b.location == a.location && b.name
            == a.name,
        ours::SecurityScheme::HttpAuth { http_auth_security_scheme: a } => q.scheme matches Some(
            pb::Scheme::HttpAuthSecurityScheme(b),
        ) && b.description@ == text_or_empty(a.description) && b.scheme == a.scheme
            && b.bearer_format@ == text_or_empty(a.bearer_format),
        ours::SecurityScheme::OAuth2 { oauth2_security_scheme: a } => q.scheme matches Some(
            pb::Scheme::Oauth2SecurityScheme(b),
        ) && wire_oauth2_scheme(a, b),
        ours::SecurityScheme::OpenIdConnect { open_id_connect_security_scheme: a } => q.scheme matches Some(
            pb::Scheme::OpenIdConnectSecurityScheme(b),
        ) && b.description@ == text_or_empty(a.description) && b.open_id_connect_url
            == a.open_id_connect_url,
        ours::SecurityScheme::MutualTls { mtls_security_scheme: a } => q.scheme matches Some(
            pb::Scheme::MtlsSecurityScheme(b),
        ) && b.description@ == text_or_empty(a.description),
    }
}

/// A wire scheme names a scheme, and an OAuth 2.0 one names its flow.
pub open spec fn security_scheme_readable(q: pb::SecurityScheme) -> bool {
    match q.scheme {
        Some(pb::Scheme::Oauth2SecurityScheme(b)) => b.flows is Some && b.flows->0.flow is Some,
        Some(_) => true,
        None => false,
    }
}

/// `s` is what the readable wire scheme `q` reads as.
pub open spec fn read_security_scheme(q: pb::SecurityScheme, s: ours::SecurityScheme) -> bool {
    match q.scheme {
        Some(pb::Scheme::ApiKeySecurityScheme(b)) => s matches ours::SecurityScheme::ApiKey {
            api_key_security_scheme: a,
        } && a.description == spec_non_empty(b.description) && a.location == b.location && a.name
            == b.name,
        Some(pb::Scheme::HttpAuthSecurityScheme(b)) => s matches ours::SecurityScheme::HttpAuth {
            http_auth_security_scheme: a,
        } && a.description == spec_non_empty(b.description) && a.scheme == b.scheme
            && a.bearer_format == spec_non_empty(b.bearer_format),
        Some(pb::Scheme::Oauth2SecurityScheme(b)) => s matches ours::SecurityScheme::OAuth2 {
            oauth2_security_scheme: a,
        } && a.description == spec_non_empty(b.description) && b.flows is Some && read_oauth_flows(
            b.flows->0,
            a.flows,
        ) && a.oauth2_metadata_url == spec_non_empty(b.oauth2_metadata_url),
        Some(pb::Scheme::OpenIdConnectSecurityScheme(b)) => s matches ours::SecurityScheme::OpenIdConnect {
            open_id_connect_security_scheme: a,
        } && a.description == spec_non_empty(b.description) && a.open_id_connect_url
            == b.open_id_connect_url,
        Some(pb::Scheme::MtlsSecurityScheme(b)) => s matches ours::SecurityScheme::MutualTls {
            mtls_security_scheme: a,
        } && a.description == spec_non_empty(b.description),
        None => false,
    }
}

/// Writes a security scheme in its wire form.
pub fn our_security_scheme_to_pb(s: ours::SecurityScheme) -> (r: pb::SecurityScheme)
    ensures
        wire_security_scheme(s, r),
{
    let scheme = Some(
        match s {
            ours::SecurityScheme::ApiKey { api_key_security_scheme } => pb::Scheme::ApiKeySecurityScheme(
                our_api_key_scheme_to_pb(api_key_security_scheme),
            ),
            ours::SecurityScheme::HttpAuth { http_auth_security_scheme } => pb::Scheme::HttpAuthSecurityScheme(
                our_http_auth_scheme_to_pb(http_auth_security_scheme),
            ),
            ours::SecurityScheme::OAuth2 { oauth2_security_scheme } => pb::Scheme::Oauth2SecurityScheme(
                our_oauth2_scheme_to_pb(oauth2_security_scheme),
            ),
            ours::SecurityScheme::OpenIdConnect { open_id_connect_security_scheme } =>
                pb::Scheme::OpenIdConnectSecurityScheme(
                our_oidc_scheme_to_pb(open_id_connect_security_scheme),
            ),
            ours::SecurityScheme::MutualTls { mtls_security_scheme } => pb::Scheme::MtlsSecurityScheme(
                our_mtls_scheme_to_pb(mtls_security_scheme),
            ),
        },
    );
    pb::SecurityScheme { scheme }
}

/// Reads a wire security scheme; `None` for a scheme that names no kind,
/// or an OAuth 2.0 scheme that names no flow: shapes the protocol does not
/// define, better absent than invented.
pub fn pb_security_scheme_to_ours(s: pb::SecurityScheme) -> (r: Option<ours::SecurityScheme>)
    ensures
        r is Some <==> security_scheme_readable(s),
        r is Some ==> read_security_scheme(s, r->0),
{
    match s.scheme {
        Some(pb::Scheme::ApiKeySecurityScheme(s)) => Some(
            ours::SecurityScheme::ApiKey {
                api_key_security_scheme: ours::ApiKeySecurityScheme {
                    description: non_empty(s.description),
                    location: s.location,
                    name: s.name,
                },
            },
        ),
        Some(pb::Scheme::HttpAuthSecurityScheme(s)) => Some(
            ours::SecurityScheme::HttpAuth {
                http_auth_security_scheme: ours::HttpAuthSecurityScheme {
                    description: non_empty(s.description),
                    scheme: s.scheme,
                    bearer_format: non_empty(s.bearer_format),
                },
            },
        ),
        Some(pb::Scheme::Oauth2SecurityScheme(s)) => {
            let flows = match s.flows {
                Some(f) => f,
                None => return None,
            };
            let flows = match pb_oauth_flows_to_ours(flows) {
                Some(f) => f,
                None => return None,
            };
            Some(
                ours::SecurityScheme::OAuth2 {
                    oauth2_security_scheme: ours::OAuth2SecurityScheme {
                        description: non_empty(s.description),
                        flows,
                        oauth2_metadata_url: non_empty(s.oauth2_metadata_url),
                    },
                },
            )
        },
        Some(pb::Scheme::OpenIdConnectSecurityScheme(s)) => Some(
            ours::SecurityScheme::OpenIdConnect {
                open_id_connect_security_scheme: ours::OpenIdConnectSecurityScheme {
                    description: non_empty(s.description),
                    open_id_connect_url: s.open_id_connect_url,
                },
            },
        ),
        Some(pb::Scheme::MtlsSecurityScheme(s)) => Some(
            ours::SecurityScheme::MutualTls {
                mtls_security_scheme: ours::MutualTlsSecurityScheme {
                    description: non_empty(s.description),
                },
            },
        ),
        None => None,
    }
}

// --- AgentCard ---

/// A named scheme entry and its wire form.
pub open spec fn wire_scheme_entry(a: (String, ours::SecurityScheme), b: (String, pb::SecurityScheme)) -> bool {
    b.0 == a.0 && wire_security_scheme(a.1, b.1)
}

fn scheme_entry_to_pb(e: (String, ours::SecurityScheme)) -> (r: (String, pb::SecurityScheme))
    ensures
        wire_scheme_entry(e, r),
{
    let (k, v) = e;
    (k, our_security_scheme_to_pb(v))
}

/// `out` holds, in order, the entries of `src` whose scheme is readable,
/// each read: the entries that are not are dropped.
pub open spec fn read_scheme_entries(
    src: Seq<(String, pb::SecurityScheme)>,
    out: Seq<(String, ours::SecurityScheme)>,
) -> bool
    decreases src.len(),
{
    if src.len() == 0 {
        out.len() == 0
    } else if security_scheme_readable(src.last().1) {
        &&& out.len() > 0
        &&& out.last().0 == src.last().0
        &&& read_security_scheme(src.last().1, out.last().1)
        &&& read_scheme_entries(src.drop_last(), out.drop_last())
    } else {
        read_scheme_entries(src.drop_last(), out)
    }
}

fn pb_scheme_entries_to_ours(entries: Vec<(String, pb::SecurityScheme)>) -> (r: Vec<(String, ours::SecurityScheme)>)
    ensures
        read_scheme_entries(entries@, r@),
{
    let ghost src = entries@;
    let mut out: Vec<(String, ours::SecurityScheme)> = Vec::new();
    for e in it: entries
        invariant
            it.seq() == src,
            0 <= it.index() <= src.len(),
            read_scheme_entries(src.take(it.index() as int), out@),
    {
        let ghost k = it.index() as int;
        let ghost before = out@;
        let (name, scheme) = e;
        match pb_security_scheme_to_ours(scheme) {
            Some(s) => out.push((name, s)),
            None => {},
        }
        assert(src.take(k + 1).drop_last() =~= src.take(k));
        assert(src.take(k + 1).last() == src[k]);
        assert(out@.len() > before.len() ==> out@.drop_last() =~= before);
    }
    assert(src.take(src.len() as int) =~= src);
    out
}

/// `q` is the wire form of the card `c`.
pub open spec fn wire_agent_card(c: ours::AgentCard, q: pb::AgentCard) -> bool {
    &&& q.name == c.name
    &&& q.description == c.description
    &&& maps_each(
        c.supported_interfaces@,
        q.supported_interfaces@,
        |x: ours::AgentInterface, y: pb::AgentInterface| wire_interface(x, y),
    )
    &&& option_maps(
        c.provider,
        q.provider,
        |x: ours::AgentProvider, y: pb::AgentProvider| y.url == x.url && y.organization == x.organization,
    )
    &&& q.version == c.version
    &&& q.documentation_url == c.documentation_url
    &&& q.capabilities is Some
    &&& same_capabilities(c.capabilities, q.capabilities->0)
    &&& maps_each(
        c.security_schemes@,
        q.security_schemes@,
        |x: (String, ours::SecurityScheme), y: (String, pb::SecurityScheme)| wire_scheme_entry(x, y),
    )
    &&& maps_each(
        c.security_requirements@,
        q.security_requirements@,
        |x: ours::SecurityRequirement, y: pb::SecurityRequirement| same_requirement(x, y),
    )
    &&& q.default_input_modes == c.default_input_modes
    &&& q.default_output_modes == c.default_output_modes
    &&& maps_each(c.skills@, q.skills@, |x: ours::AgentSkill, y: pb::AgentSkill| same_skill(x, y))
    &&& maps_each(
        c.signatures@,
        q.signatures@,
        |x: ours::AgentCardSignature, y: pb::AgentCardSignature| same_signature(x, y),
    )
    &&& q.icon_url == c.icon_url
}

/// `c` is what the wire card `q` reads as: absent capabilities read as
/// none declared, unreadable security schemes are dropped, and empty
/// documentation or icon URLs read as absent.
pub open spec fn read_agent_card(q: pb::AgentCard, c: ours::AgentCard) -> bool {
    &&& c.name == q.name
    &&& c.description == q.description
    &&& maps_each(
        q.supported_interfaces@,
        c.supported_interfaces@,
        |x: pb::AgentInterface, y: ours::AgentInterface| read_interface(x, y),
    )
    &&& option_maps(
        q.provider,
        c.provider,
        |x: pb::AgentProvider, y: ours::AgentProvider| y.url == x.url && y.organization == x.organization,
    )
    &&& c.version == q.version
    &&& c.documentation_url == spec_opt_non_empty(q.documentation_url)
    &&& match q.capabilities {
        Some(caps) => same_capabilities(c.capabilities, caps),
        None => ours::spec_default_capabilities(c.capabilities),
    }
    &&& read_scheme_entries(q.security_schemes@, c.security_schemes@)
    &&& maps_each(
        q.security_requirements@,
        c.security_requirements@,
        |x: pb::SecurityRequirement, y: ours::SecurityRequirement| same_requirement(y, x),
    )
    &&& c.default_input_modes == q.default_input_modes
    &&& c.default_output_modes == q.default_output_modes
    &&& maps_each(q.skills@, c.skills@, |x: pb::AgentSkill, y: ours::AgentSkill| same_skill(y, x))
    &&& maps_each(
        q.signatures@,
        c.signatures@,
        |x: pb::AgentCardSignature, y: ours::AgentCardSignature| same_signature(y, x),
    )
    &&& c.icon_url == spec_opt_non_empty(q.icon_url)
}

/// Writes an agent card in its wire form.
pub fn our_agent_card_to_pb(c: ours::AgentCard) -> (r: pb::AgentCard)
    ensures
        wire_agent_card(c, r),
        ours::card_keys_distinct(c) ==> pb::card_keys_distinct(r),
        r.capabilities matches Some(k) && k.streaming == c.capabilities.streaming && k.push_notifications
            == c.capabilities.push_notifications && k.extended_agent_card == c.capabilities.extended_agent_card,
{
    let ghost card = c;
    let provider = match c.provider {
        Some(p) => Some(our_agent_provider_to_pb(p)),
        None => None,
    };
    let r = pb::AgentCard {
        name: c.name,
        description: c.description,
        supported_interfaces: map_vec(c.supported_interfaces, our_agent_interface_to_pb),
        provider,
        version: c.version,
        documentation_url: c.documentation_url,
        capabilities: Some(our_agent_capabilities_to_pb(c.capabilities)),
        security_schemes: map_vec(c.security_schemes, scheme_entry_to_pb),
        security_requirements: map_vec(c.security_requirements, our_security_requirement_to_pb),
        default_input_modes: c.default_input_modes,
        default_output_modes: c.default_output_modes,
        skills: map_vec(c.skills, our_agent_skill_to_pb),
        signatures: map_vec(c.signatures, our_agent_card_signature_to_pb),
        icon_url: c.icon_url,
    };
    proof {
        if ours::card_keys_distinct(card) {
            lemma_wire_card_keeps_keys_distinct(card, r);
        }
    }
    r
}

/// Reads a wire agent card. Every card reads; nothing in it is refused.
pub fn pb_agent_card_to_ours(c: pb::AgentCard) -> (r: Result<ours::AgentCard, RpcStatus>)
    ensures
        r is Ok,
        read_agent_card(c, r->Ok_0),
        pb::card_keys_distinct(c) ==> ours::card_keys_distinct(r->Ok_0),
        match c.capabilities {
            Some(k) => r->Ok_0.capabilities.streaming == k.streaming && r->Ok_0.capabilities.push_notifications
                == k.push_notifications && r->Ok_0.capabilities.extended_agent_card == k.extended_agent_card,
            None => r->Ok_0.capabilities.streaming is None && r->Ok_0.capabilities.push_notifications is None
                && r->Ok_0.capabilities.extended_agent_card is None,
        },
{
    let ghost card = c;
    let capabilities = match c.capabilities {
        Some(caps) => pb_agent_capabilities_to_ours(caps),
        None => ours::AgentCapabilities::default(),
    };
    let provider = match c.provider {
        Some(p) => Some(pb_agent_provider_to_ours(p)),
        None => None,
    };
    let read = ours::AgentCard {
            name: c.name,
            description: c.description,
            supported_interfaces: map_vec(c.supported_interfaces, pb_agent_interface_to_ours),
            provider,
            version: c.version,
            documentation_url: opt_non_empty(c.documentation_url),
            capabilities,
            security_schemes: pb_scheme_entries_to_ours(c.security_schemes),
            security_requirements: map_vec(c.security_requirements, pb_security_requirement_to_ours),
            default_input_modes: c.default_input_modes,
            default_output_modes: c.default_output_modes,
            skills: map_vec(c.skills, pb_agent_skill_to_ours),
            signatures: map_vec(c.signatures, pb_agent_card_signature_to_ours),
            icon_url: opt_non_empty(c.icon_url),
        };
    proof {
        if pb::card_keys_distinct(card) {
            lemma_read_card_keeps_keys_distinct(card, read);
        }
    }
    Ok(read)
}

} // verus!
