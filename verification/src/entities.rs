//! The records that the gateway reads from and writes to its store, and
//! the partial updates it applies to them. In an update, `None` leaves a
//! field as it is; for a nullable field `Some(None)` clears it. JSON values
//! are held as JSON text, instants as RFC 3339 text.
use vstd::prelude::*;

verus! {

/// A stored workflow run.
#[derive(Debug, Clone)]
pub struct StoredWorkflowExecution {
    pub run_id: String,
    pub workflow_id: Option<String>,
    pub shard_id: i64,
    pub template_id: Option<String>,
    pub mode: String,
    pub current_state_name: Option<String>,
    pub workflow_type: String,
    pub status: String,
    pub input: Option<String>,
    pub input_version: i64,
    pub result: Option<String>,
    pub result_version: i64,
    pub start_time: String,
    pub close_time: Option<String>,
    pub current_event_id: i64,
    pub memo: Option<String>,
    pub search_attrs: Option<String>,
    pub context_snapshot: Option<String>,
    pub version: i64,
}

/// A partial update of a [`StoredWorkflowExecution`].
#[derive(Debug, Clone)]
pub struct UpdateStoredWorkflowExecution {
    pub workflow_id: Option<Option<String>>,
    pub shard_id: Option<i64>,
    pub template_id: Option<Option<String>>,
    pub mode: Option<String>,
    pub current_state_name: Option<Option<String>>,
    pub workflow_type: Option<String>,
    pub status: Option<String>,
    pub input: Option<Option<String>>,
    pub input_version: Option<i64>,
    pub result: Option<Option<String>>,
    pub result_version: Option<i64>,
    pub start_time: Option<String>,
    pub close_time: Option<Option<String>>,
    pub current_event_id: Option<i64>,
    pub memo: Option<Option<String>>,
    pub search_attrs: Option<Option<String>>,
    pub context_snapshot: Option<Option<String>>,
    pub version: Option<i64>,
}

impl UpdateStoredWorkflowExecution {
    /// The update touches none of the fields other than `status`, `result`,
    /// `result_version` and `close_time`.
    pub open spec fn touches_only_outcome(&self) -> bool {
        &&& self.workflow_id is None
        &&& self.shard_id is None
        &&& self.template_id is None
        &&& self.mode is None
        &&& self.current_state_name is None
        &&& self.workflow_type is None
        &&& self.input is None
        &&& self.input_version is None
        &&& self.start_time is None
        &&& self.current_event_id is None
        &&& self.memo is None
        &&& self.search_attrs is None
        &&& self.context_snapshot is None
        &&& self.version is None
    }
}

/// A stored step (state) of a workflow run.
#[derive(Debug, Clone)]
pub struct StoredWorkflowState {
    pub state_id: String,
    pub run_id: String,
    pub shard_id: i64,
    pub state_name: String,
    pub state_type: String,
    pub input: Option<String>,
    pub status: String,
    pub started_at: Option<String>,
    pub output: Option<String>,
    pub completed_at: Option<String>,
    pub error: Option<String>,
    pub error_details: Option<String>,
    pub created_at: String,
    pub updated_at: String,
    pub version: i64,
}

/// A partial update of a [`StoredWorkflowState`].
#[derive(Debug, Clone)]
pub struct UpdateStoredWorkflowState {
    pub state_name: Option<String>,
    pub state_type: Option<String>,
    pub input: Option<Option<String>>,
    pub status: Option<String>,
    pub output: Option<Option<String>>,
    pub completed_at: Option<Option<String>>,
    pub error: Option<Option<String>>,
    pub error_details: Option<Option<String>>,
    pub started_at: Option<Option<String>>,
    pub version: Option<i64>,
}

/// A stored history event of a workflow run.
#[derive(Debug, Clone)]
pub struct StoredWorkflowEvent {
    pub id: i64,
    pub run_id: String,
    pub shard_id: i64,
    pub event_id: i64,
    pub event_type: String,
    pub state_id: Option<String>,
    pub state_type: Option<String>,
    pub trace_id: Option<String>,
    pub parent_event_id: Option<i64>,
    pub context_version: Option<i64>,
    pub attributes: Option<String>,
    pub attr_version: i64,
    pub timestamp: String,
    pub archived: bool,
}

/// A partial update of a stored activity task.
#[derive(Debug, Clone)]
pub struct UpdateStoredActivityTask {
    pub status: Option<String>,
    pub result: Option<Option<String>>,
    pub error: Option<Option<String>>,
    pub error_details: Option<Option<String>>,
    pub started_at: Option<Option<String>>,
    pub completed_at: Option<Option<String>>,
    pub heartbeat_at: Option<Option<String>>,
}

/// A stored task of the matching queue.
#[derive(Debug, Clone)]
pub struct StoredQueueTask {
    pub task_id: String,
    pub run_id: String,
    pub state_name: String,
    pub resource: String,
    pub task_payload: Option<String>,
    pub status: String,
    pub attempts: i64,
    pub max_attempts: i64,
    pub priority: Option<i64>,
    pub timeout_seconds: Option<i64>,
    pub error_message: Option<String>,
    pub last_error_at: Option<String>,
    pub next_retry_at: Option<String>,
    pub queued_at: String,
    pub processing_at: Option<String>,
    pub completed_at: Option<String>,
    pub failed_at: Option<String>,
}

/// A partial update of a [`StoredQueueTask`].
#[derive(Debug, Clone)]
pub struct UpdateStoredQueueTask {
    pub status: Option<String>,
    pub task_payload: Option<Option<String>>,
    pub attempts: Option<i64>,
    pub error_message: Option<Option<String>>,
    pub priority: Option<i64>,
    pub timeout_seconds: Option<i64>,
    pub last_error_at: Option<Option<String>>,
    pub next_retry_at: Option<Option<String>>,
    pub processing_at: Option<Option<String>>,
    pub completed_at: Option<Option<String>>,
    pub failed_at: Option<Option<String>>,
}

/// A stored timer.
#[derive(Debug, Clone)]
pub struct StoredTimer {
    pub timer_id: String,
    pub run_id: String,
    pub shard_id: i64,
    pub fire_at: String,
    pub status: String,
    pub version: i64,
    pub state_name: Option<String>,
    pub payload: Option<String>,
    pub created_at: String,
    pub updated_at: String,
}

/// A partial update of a [`StoredTimer`].
#[derive(Debug, Clone)]
pub struct UpdateStoredTimer {
    pub fire_at: Option<String>,
    pub status: Option<String>,
    pub version: Option<i64>,
    pub payload: Option<Option<String>>,
}

/// A stored workflow template; `dsl_definition` is the JSON text of the
/// workflow definition.
#[derive(Debug, Clone)]
pub struct WorkflowTemplate {
    pub template_id: String,
    pub name: String,
    pub description: Option<String>,
    pub dsl_definition: String,
    pub version: i64,
    pub created_at: String,
    pub updated_at: String,
}

/// A partial update of a [`WorkflowTemplate`].
#[derive(Debug, Clone)]
pub struct UpdateWorkflowTemplate {
    pub name: Option<String>,
    pub description: Option<Option<String>>,
    pub dsl_definition: Option<String>,
    pub version: Option<i64>,
}

} // verus!
