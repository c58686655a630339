//! Workflow executions: the records and requests of the execution routes.
use vstd::prelude::*;

verus! {

/// A request to run a workflow: either a stored template or an inline
/// DSL document (JSON text), with the initial context (JSON text) and the
/// mode name (`INLINE` or `DEFERRED`).
#[derive(Debug, Clone)]
pub struct ExecStart {
    pub mode: String,
    pub template_id: Option<String>,
    pub dsl: Option<String>,
    pub init_ctx: Option<String>,
}

/// A workflow run as the routes return it; `result` is JSON text, the
/// instants RFC 3339 text.
#[derive(Debug, Clone)]
pub struct ExecDto {
    pub run_id: String,
    pub mode: String,
    pub status: String,
    pub result: Option<String>,
    pub started_at: String,
    pub finished_at: Option<String>,
}

/// A new status (and result, JSON text) for a run.
#[derive(Debug, Clone)]
pub struct ExecUpdate {
    pub status: String,
    pub result: Option<String>,
}

/// A page of the run list.
#[derive(Debug, Clone)]
pub struct Page {
    pub limit: Option<i64>,
    pub offset: Option<i64>,
}

/// A page of the runs with a given status.
#[derive(Debug, Clone)]
pub struct StatusPage {
    pub status: String,
    pub limit: Option<i64>,
    pub offset: Option<i64>,
}

/// The page size and offset of a run list request: 20 and 0 unless given.
pub fn page_bounds(limit: Option<i64>, offset: Option<i64>) -> (r: (i64, i64))
    ensures
        r.0 == match limit {
            Some(l) => l,
            None => 20,
        },
        r.1 == match offset {
            Some(o) => o,
            None => 0,
        },
{
    (
        match limit {
            Some(l) => l,
            None => 20,
        },
        match offset {
            Some(o) => o,
            None => 0,
        },
    )
}

} // verus!
