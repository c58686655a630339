//! Workflow history events: the records and requests of the event routes.
use vstd::prelude::*;

verus! {

/// A request to record a history event; `attributes` is free text.
#[derive(Debug, Clone)]
pub struct RecordEventRequest {
    pub run_id: String,
    pub shard_id: i64,
    pub event_id: i64,
    pub event_type: String,
    pub state_id: Option<String>,
    pub state_type: Option<String>,
    pub trace_id: Option<String>,
    pub parent_event_id: Option<i64>,
    pub context_version: Option<i64>,
    pub attributes: Option<String>,
    pub archived: bool,
}

/// A history event as the routes return it; `timestamp` is RFC 3339 text.
#[derive(Debug, Clone)]
pub struct WorkflowEventDto {
    pub id: i64,
    pub run_id: String,
    pub shard_id: i64,
    pub event_id: i64,
    pub event_type: String,
    pub state_id: Option<String>,
    pub state_type: Option<String>,
    pub trace_id: Option<String>,
    pub parent_event_id: Option<i64>,
    pub context_version: Option<i64>,
    pub attributes: Option<String>,
    pub attr_version: i64,
    pub timestamp: String,
    pub archived: bool,
}

/// The page size used when an event list request gives none.
pub fn default_limit() -> (r: i64)
    ensures
        r == 100,
{
    100
}

/// A page of the event list.
#[derive(Debug, Clone, Copy, PartialEq, Eq, Structural)]
pub struct ListQuery {
    pub limit: i64,
    pub offset: i64,
}

impl ListQuery {
    /// The page that a request asks for; a missing limit is
    /// [`default_limit`], a missing offset is 0.
    pub fn from_params(limit: Option<i64>, offset: Option<i64>) -> (r: ListQuery)
        ensures
            r.limit == match limit {
                Some(l) => l,
                None => 100,
            },
            r.offset == match offset {
                Some(o) => o,
                None => 0,
            },
    {
        ListQuery {
            limit: match limit {
                Some(l) => l,
                None => default_limit(),
            },
            offset: match offset {
                Some(o) => o,
                None => 0,
            },
        }
    }
}

} // verus!
