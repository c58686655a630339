//! The worker protocol: polling for a task and reporting its outcome.
use vstd::prelude::*;
use crate::event::TaskStatus;

verus! {

/// A worker asking for a task.
#[derive(Debug, Clone)]
pub struct PollRequest {
    pub worker_id: String,
}

/// The answer to a poll: the task handed out, if any; `input` is JSON
/// text.
#[derive(Debug, Clone)]
pub struct PollResponse {
    pub has_task: bool,
    pub run_id: Option<String>,
    pub state_name: Option<String>,
    pub tool_type: Option<String>,
    pub task_id: Option<String>,
    pub input: Option<String>,
}

impl PollResponse {
    /// The answer when no task is waiting.
    pub fn empty() -> (r: PollResponse)
        ensures
            !r.has_task,
            r.run_id is None,
            r.state_name is None,
            r.tool_type is None,
            r.task_id is None,
            r.input is None,
    {
        PollResponse { has_task: false, run_id: None, state_name: None, tool_type: None, task_id: None, input: None }
    }
}

/// A worker reporting the outcome of a task; `result` is JSON text.
#[derive(Debug, Clone)]
pub struct UpdateRequest {
    pub run_id: String,
    pub state_name: String,
    pub status: TaskStatus,
    pub result: String,
}

} // verus!
