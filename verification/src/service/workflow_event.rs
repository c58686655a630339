//! Recording and reading workflow history events.
use vstd::prelude::*;
use crate::dto::workflow_event::{RecordEventRequest, WorkflowEventDto};
use crate::entities::StoredWorkflowEvent;
use crate::json::{json_quote, json_string_literal};

use crate::time::{is_instant_text, utc_now};
verus! {

/// The attributes as they are stored: the JSON string literal of the
/// given text.
pub open spec fn stored_attributes(a: Option<String>) -> Option<Seq<char>> {
    match a {
        Some(s) => Some(json_string_literal(s@)),
        None => None,
    }
}

/// The event record that a record request writes at `now`: the request's
/// fields, the attributes stored as a JSON string, attribute version 1;
/// the store assigns the id.
pub fn event_from_request(req: RecordEventRequest, now: &String) -> (r: StoredWorkflowEvent)
    ensures
        r.id == 0,
        r.run_id == req.run_id,
        r.shard_id == req.shard_id,
        r.event_id == req.event_id,
        r.event_type == req.event_type,
        r.state_id == req.state_id,
        r.state_type == req.state_type,
        r.trace_id == req.trace_id,
        r.parent_event_id == req.parent_event_id,
        r.context_version == req.context_version,
        match r.attributes {
            Some(a) => stored_attributes(req.attributes) == Some(a@),
            None => req.attributes is None,
        },
        r.attr_version == 1,
        r.timestamp@ == now@,
        r.archived == req.archived,
{
    let attributes = match &req.attributes {
        Some(a) => Some(json_quote(a.as_str())),
        None => None,
    };
    StoredWorkflowEvent {
        id: 0,
        run_id: req.run_id,
        shard_id: req.shard_id,
        event_id: req.event_id,
        event_type: req.event_type,
        state_id: req.state_id,
        state_type: req.state_type,
        trace_id: req.trace_id,
        parent_event_id: req.parent_event_id,
        context_version: req.context_version,
        attributes,
        attr_version: 1,
        timestamp: now.clone(),
        archived: req.archived,
    }
}

/// A stored event as the routes return it, every field carried over.
pub fn event_dto(stored: StoredWorkflowEvent) -> (r: WorkflowEventDto)
    ensures
        r.id == stored.id,
        r.run_id == stored.run_id,
        r.shard_id == stored.shard_id,
        r.event_id == stored.event_id,
        r.event_type == stored.event_type,
        r.state_id == stored.state_id,
        r.state_type == stored.state_type,
        r.trace_id == stored.trace_id,
        r.parent_event_id == stored.parent_event_id,
        r.context_version == stored.context_version,
        r.attributes == stored.attributes,
        r.attr_version == stored.attr_version,
        r.timestamp == stored.timestamp,
        r.archived == stored.archived,
{
    WorkflowEventDto {
        id: stored.id,
        run_id: stored.run_id,
        shard_id: stored.shard_id,
        event_id: stored.event_id,
        event_type: stored.event_type,
        state_id: stored.state_id,
        state_type: stored.state_type,
        trace_id: stored.trace_id,
        parent_event_id: stored.parent_event_id,
        context_version: stored.context_version,
        attributes: stored.attributes,
        attr_version: stored.attr_version,
        timestamp: stored.timestamp,
        archived: stored.archived,
    }
}

/// The run key under which the unfiltered event list is read: the empty
/// run id.
pub fn all_runs_key() -> (r: String)
    ensures
        r@ == Seq::<char>::empty(),
{
    String::new()
}


/// A recorded event reads back as it was requested, its attributes as a
/// JSON string, stamped with the moment it was recorded.
pub proof fn lemma_recorded_event_reads_back(
    req: RecordEventRequest,
    now: String,
    stored: StoredWorkflowEvent,
    shown: WorkflowEventDto,
)
    requires
        call_ensures(event_from_request, (req, &now), stored),
        call_ensures(event_dto, (stored,), shown),
    ensures
        shown.run_id == req.run_id,
        shown.shard_id == req.shard_id,
        shown.event_id == req.event_id,
        shown.event_type == req.event_type,
        shown.state_id == req.state_id,
        shown.state_type == req.state_type,
        shown.trace_id == req.trace_id,
        shown.parent_event_id == req.parent_event_id,
        shown.context_version == req.context_version,
        match shown.attributes {
            Some(a) => stored_attributes(req.attributes) == Some(a@),
            None => req.attributes is None,
        },
        shown.attr_version == 1,
        shown.timestamp@ == now@,
        shown.archived == req.archived,
{
}


/// The event record that a record request writes now: as
/// [`event_from_request`] at the current instant.
pub fn record_event(req: RecordEventRequest) -> (r: StoredWorkflowEvent)
    ensures
        r.id == 0,
        r.run_id == req.run_id,
        r.shard_id == req.shard_id,
        r.event_id == req.event_id,
        r.event_type == req.event_type,
        r.state_id == req.state_id,
        r.state_type == req.state_type,
        r.trace_id == req.trace_id,
        r.parent_event_id == req.parent_event_id,
        r.context_version == req.context_version,
        match r.attributes {
            Some(a) => stored_attributes(req.attributes) == Some(a@),
            None => req.attributes is None,
        },
        r.attr_version == 1,
        r.archived == req.archived,
        is_instant_text(r.timestamp@),
{
    let now = utc_now();
    event_from_request(req, &now)
}

} // verus!
