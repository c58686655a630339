//! Activity tasks: the records and requests of the activity task routes.
use vstd::prelude::*;

verus! {

/// The page size used when a list request gives none.
pub fn default_limit() -> (r: i64)
    ensures
        r == 100,
{
    100
}

/// A page of a list: at most `limit` records after the first `offset`.
#[derive(Debug, Clone, Copy, PartialEq, Eq, Structural)]
pub struct ListQuery {
    pub limit: i64,
    pub offset: i64,
}

impl ListQuery {
    /// The page that a request asks for; a missing limit is
    /// [`default_limit`], a missing offset is 0.
    pub fn from_params(limit: Option<i64>, offset: Option<i64>) -> (r: ListQuery)
        ensures
            r.limit == match limit {
                Some(l) => l,
                None => 100,
            },
            r.offset == match offset {
                Some(o) => o,
                None => 0,
            },
    {
        ListQuery {
            limit: match limit {
                Some(l) => l,
                None => default_limit(),
            },
            offset: match offset {
                Some(o) => o,
                None => 0,
            },
        }
    }
}

/// An activity task as the routes return it. `input` and `result` are
/// JSON text; the instants are RFC 3339 text.
#[derive(Debug, Clone)]
pub struct ActivityTaskDto {
    pub task_token: String,
    pub run_id: String,
    pub activity_type: String,
    pub status: String,
    pub input: Option<String>,
    pub result: Option<String>,
    pub error: Option<String>,
    pub error_details: Option<String>,
    pub attempt: i64,
    pub max_attempts: i64,
    pub scheduled_at: String,
    pub started_at: Option<String>,
    pub completed_at: Option<String>,
    pub heartbeat_at: Option<String>,
}

/// The result with which a worker completes a task (JSON text).
#[derive(Debug, Clone)]
pub struct CompleteRequest {
    pub result: String,
}

/// Why a task failed.
#[derive(Debug, Clone)]
pub struct FailRequest {
    pub reason: String,
    pub details: Option<String>,
}

/// A sign of life of the worker that runs a task.
#[derive(Debug, Clone)]
pub struct HeartbeatRequest {
    pub details: Option<String>,
}

} // verus!
