//! The worker routes: handing out a task, and turning a worker's report
//! into the queue update and the engine signal.
use vstd::prelude::*;
use crate::dto::queue_task::UpdateQueueTaskDto;
use crate::dto::worker::{PollResponse, UpdateRequest};
use crate::event::{ExecutionSignal, TaskStatus};

use crate::time::{is_instant_text, utc_now};
verus! {

/// How long a poll of the matching service waits for a task, in seconds:
/// as long as the request asks, 10 seconds if it does not say.
pub fn match_poll_timeout(requested: Option<u64>) -> (r: u64)
    ensures
        r == match requested {
            Some(t) => t,
            None => 10,
        },
{
    match requested {
        Some(t) => t,
        None => 10,
    }
}

/// The queue that workers poll.
pub const DEFAULT_QUEUE: &'static str = "default_task_queue";

/// How long a poll waits for a task, in seconds.
pub const POLL_TIMEOUT_S: u64 = 30;

/// A task handed out by the matching service; `task_payload` is JSON text.
#[derive(Debug, Clone)]
pub struct MatchedTask {
    pub task_id: String,
    pub run_id: String,
    pub state_name: String,
    pub resource: String,
    pub task_payload: Option<String>,
}

/// The answer to a poll that got `task`: the task's run, step, tool
/// (its resource), id and input; or the empty answer.
pub fn poll_response(task: Option<MatchedTask>) -> (r: PollResponse)
    ensures
        match task {
            Some(t) => {
                &&& r.has_task
                &&& r.run_id == Some(t.run_id)
                &&& r.state_name == Some(t.state_name)
                &&& r.tool_type == Some(t.resource)
                &&& r.task_id == Some(t.task_id)
                &&& r.input == t.task_payload
            },
            None => {
                &&& !r.has_task
                &&& r.run_id is None
                &&& r.state_name is None
                &&& r.tool_type is None
                &&& r.task_id is None
                &&& r.input is None
            },
        },
{
    match task {
        Some(t) => PollResponse {
            has_task: true,
            run_id: Some(t.run_id),
            state_name: Some(t.state_name),
            tool_type: Some(t.resource),
            task_id: Some(t.task_id),
            input: t.task_payload,
        },
        None => PollResponse::empty(),
    }
}

/// The queue status that a reported outcome leads to.
pub open spec fn queue_status_for(status: TaskStatus) -> Seq<char> {
    match status {
        TaskStatus::SUCCEEDED => "completed"@,
        TaskStatus::FAILED => "failed"@,
        TaskStatus::CANCELLED => "cancelled"@,
    }
}

/// The queue update for a task reported with `status` and `result` at
/// `now`: a success stores the result as the payload and the completion
/// time; a failure or cancellation stores the result's text as the error
/// and the failure time. Nothing else changes.
pub fn queue_patch(status: TaskStatus, result: &String, now: &String) -> (r: UpdateQueueTaskDto)
    ensures
        r.status matches Some(s) && s@ == queue_status_for(status),
        r.attempts is None,
        r.priority is None,
        r.timeout_seconds is None,
        r.last_error_at is None,
        r.next_retry_at is None,
        r.processing_at is None,
        match status {
            TaskStatus::SUCCEEDED => {
                &&& r.task_payload matches Some(Some(p)) && p@ == result@
                &&& r.completed_at matches Some(Some(t)) && t@ == now@
                &&& r.error_message is None
                &&& r.failed_at is None
            },
            _ => {
                &&& r.task_payload is None
                &&& r.completed_at is None
                &&& r.error_message matches Some(Some(m)) && m@ == result@
                &&& r.failed_at matches Some(Some(t)) && t@ == now@
            },
        },
{
    let mut patch = UpdateQueueTaskDto::unchanged();
    match status {
        TaskStatus::SUCCEEDED => {
            patch.status = Some(String::from_str("completed"));
            patch.task_payload = Some(Some(result.clone()));
            patch.completed_at = Some(Some(now.clone()));
        },
        TaskStatus::FAILED => {
            patch.status = Some(String::from_str("failed"));
            patch.error_message = Some(Some(result.clone()));
            patch.failed_at = Some(Some(now.clone()));
        },
        TaskStatus::CANCELLED => {
            patch.status = Some(String::from_str("cancelled"));
            patch.error_message = Some(Some(result.clone()));
            patch.failed_at = Some(Some(now.clone()));
        },
    }
    patch
}

/// The signal that resumes the run's engine after the report `req`: a
/// success hands the result on as the step's output, a failure as its
/// error, a cancellation as its reason.
pub fn engine_signal(req: UpdateRequest) -> (r: ExecutionSignal)
    ensures
        match req.status {
            TaskStatus::SUCCEEDED => r == ExecutionSignal::TaskCompleted {
                run_id: req.run_id,
                state_name: req.state_name,
                output: req.result,
            },
            TaskStatus::FAILED => r == ExecutionSignal::TaskFailed {
                run_id: req.run_id,
                state_name: req.state_name,
                error: req.result,
            },
            TaskStatus::CANCELLED => r == ExecutionSignal::TaskCancelled {
                run_id: req.run_id,
                state_name: req.state_name,
                reason: Some(req.result),
            },
        },
{
    match req.status {
        TaskStatus::SUCCEEDED => ExecutionSignal::TaskCompleted {
            run_id: req.run_id,
            state_name: req.state_name,
            output: req.result,
        },
        TaskStatus::FAILED => ExecutionSignal::TaskFailed {
            run_id: req.run_id,
            state_name: req.state_name,
            error: req.result,
        },
        TaskStatus::CANCELLED => ExecutionSignal::TaskCancelled {
            run_id: req.run_id,
            state_name: req.state_name,
            reason: Some(req.result),
        },
    }
}


/// A worker's report moves the queue and the engine the same way: a
/// success completes both (the result becoming the payload and the step's
/// output), a failure fails both and a cancellation cancels both (the
/// result's text becoming the queue's error and the engine's error or
/// reason).
pub proof fn lemma_report_moves_queue_and_engine_alike(
    req: UpdateRequest,
    now: String,
    patch: UpdateQueueTaskDto,
    signal: ExecutionSignal,
)
    requires
        call_ensures(queue_patch, (req.status, &req.result, &now), patch),
        call_ensures(engine_signal, (req,), signal),
    ensures
        patch.status matches Some(s) && (s@ == "completed"@ <==> signal is TaskCompleted),
        patch.status matches Some(s) && (s@ == "failed"@ <==> signal is TaskFailed),
        patch.status matches Some(s) && (s@ == "cancelled"@ <==> signal is TaskCancelled),
        signal matches ExecutionSignal::TaskCompleted { output, .. } ==> patch.task_payload matches Some(Some(p))
            && p@ == output@,
        signal matches ExecutionSignal::TaskFailed { error, .. } ==> patch.error_message matches Some(Some(m))
            && m@ == error@,
        signal matches ExecutionSignal::TaskCancelled { reason, .. } ==> patch.error_message matches Some(Some(m))
            && reason matches Some(x) && m@ == x@,
{
    reveal_strlit("completed");
    reveal_strlit("failed");
    reveal_strlit("cancelled");
    assert("completed"@[1] != "cancelled"@[1]);
    assert("completed"@ != "failed"@);
    assert("cancelled"@.len() == 9 && "failed"@.len() == 6);
    match req.status {
        TaskStatus::SUCCEEDED => assert(signal is TaskCompleted),
        TaskStatus::FAILED => assert(signal is TaskFailed),
        TaskStatus::CANCELLED => assert(signal is TaskCancelled),
    }
}


/// The queue update for a task reported now with `status` and `result`:
/// as [`queue_patch`] at the current instant.
pub fn report_patch(status: TaskStatus, result: &String) -> (r: UpdateQueueTaskDto)
    ensures
        r.status matches Some(s) && s@ == queue_status_for(status),
        r.attempts is None,
        r.priority is None,
        r.timeout_seconds is None,
        r.last_error_at is None,
        r.next_retry_at is None,
        r.processing_at is None,
        match status {
            TaskStatus::SUCCEEDED => {
                &&& r.task_payload matches Some(Some(p)) && p@ == result@
                &&& r.completed_at matches Some(Some(t)) && is_instant_text(t@)
                &&& r.error_message is None
                &&& r.failed_at is None
            },
            _ => {
                &&& r.task_payload is None
                &&& r.completed_at is None
                &&& r.error_message matches Some(Some(m)) && m@ == result@
                &&& r.failed_at matches Some(Some(t)) && is_instant_text(t@)
            },
        },
{
    let now = utc_now();
    queue_patch(status, result, &now)
}

} // verus!
