//! Tasks of the matching queue: the records and requests of the queue
//! task routes. Payloads are JSON text, instants RFC 3339 text.
use vstd::prelude::*;

verus! {

/// A queue task as the routes return it.
#[derive(Debug, Clone)]
pub struct QueueTaskDto {
    pub task_id: String,
    pub run_id: String,
    pub state_name: String,
    pub resource: String,
    pub task_payload: Option<String>,
    pub status: String,
    pub attempts: i64,
    pub max_attempts: i64,
    pub priority: Option<u8>,
    pub timeout_seconds: Option<i64>,
    pub error_message: Option<String>,
    pub last_error_at: Option<String>,
    pub next_retry_at: Option<String>,
    pub queued_at: String,
    pub processing_at: Option<String>,
    pub completed_at: Option<String>,
    pub failed_at: Option<String>,
}

/// A partial update of a queue task, as a request gives it: `None` leaves
/// a field as it is, `Some(None)` clears a nullable field.
#[derive(Debug, Clone)]
pub struct UpdateQueueTaskDto {
    pub status: Option<String>,
    pub task_payload: Option<Option<String>>,
    pub attempts: Option<i64>,
    pub error_message: Option<Option<String>>,
    pub priority: Option<u8>,
    pub timeout_seconds: Option<i64>,
    pub last_error_at: Option<Option<String>>,
    pub next_retry_at: Option<Option<String>>,
    pub processing_at: Option<Option<String>>,
    pub completed_at: Option<Option<String>>,
    pub failed_at: Option<Option<String>>,
}

impl UpdateQueueTaskDto {
    /// The update that changes nothing.
    pub fn unchanged() -> (r: UpdateQueueTaskDto)
        ensures
            r.is_unchanged(),
    {
        UpdateQueueTaskDto {
            status: None,
            task_payload: None,
            attempts: None,
            error_message: None,
            priority: None,
            timeout_seconds: None,
            last_error_at: None,
            next_retry_at: None,
            processing_at: None,
            completed_at: None,
            failed_at: None,
        }
    }

    pub open spec fn is_unchanged(&self) -> bool {
        &&& self.status is None
        &&& self.task_payload is None
        &&& self.attempts is None
        &&& self.error_message is None
        &&& self.priority is None
        &&& self.timeout_seconds is None
        &&& self.last_error_at is None
        &&& self.next_retry_at is None
        &&& self.processing_at is None
        &&& self.completed_at is None
        &&& self.failed_at is None
    }
}

} // verus!
