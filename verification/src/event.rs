//! The events that the workflow engine emits while it runs a workflow,
//! the events shown to UI clients, and the signals sent back to an engine.
use vstd::prelude::*;

verus! {

/// How a workflow runs: to completion within the request (`Inline`) or
/// step by step, resumed by worker results (`Deferred`).
#[derive(Debug, Clone, Copy, PartialEq, Eq, Structural)]
pub enum WorkflowMode {
    Inline,
    Deferred,
}

/// An event of a workflow run. JSON values (`input`, `output`, `result`,
/// `context`) are held as JSON text; instants as RFC 3339 text.
#[derive(Debug, Clone)]
pub enum EngineEvent {
    WorkflowStarted { run_id: String },
    NodeEnter { run_id: String, state_name: String, input: String },
    NodeSuccess { run_id: String, state_name: String, output: String },
    NodeFailed { run_id: String, state_name: String, error: String },
    WorkflowFinished { run_id: String, result: String },
    NodeDispatched { run_id: String, state_name: String, context: String },
    WaitStart { run_id: String, state_name: String, mode: WorkflowMode },
    WaitComplete { run_id: String, state_name: String, mode: WorkflowMode },
    WaitError { run_id: String, state_name: String, error: String },
    TimerCreated { run_id: String, state_name: String, timer_id: String, fire_at: String },
    TimerError { run_id: String, state_name: String, timer_id: String, error: String },
    /// A worker reported the output of the task of `state_name`.
    TaskFinished { run_id: String, state_name: String, output: String },
}

/// An event as pushed to UI clients over the websocket. `payload` is JSON
/// text.
#[derive(Debug, Clone)]
pub struct UiEvent {
    pub event_type: String,
    pub run_id: String,
    pub state_name: Option<String>,
    pub payload: String,
}

/// A signal that resumes a deferred workflow engine after a task ended.
/// `output` is JSON text.
#[derive(Debug, Clone)]
pub enum ExecutionSignal {
    TaskCompleted { run_id: String, state_name: String, output: String },
    TaskFailed { run_id: String, state_name: String, error: String },
    TaskCancelled { run_id: String, state_name: String, reason: Option<String> },
}

/// The outcome that a worker reports for a task.
#[allow(non_camel_case_types)]
#[derive(Debug, Clone, Copy, PartialEq, Eq, Structural)]
pub enum TaskStatus {
    SUCCEEDED,
    FAILED,
    CANCELLED,
}

} // verus!
