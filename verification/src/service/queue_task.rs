//! Reading and updating tasks of the matching queue, and checking that a
//! task's payload holds a workflow definition.
use vstd::prelude::*;
use crate::dto::queue_task::{QueueTaskDto, UpdateQueueTaskDto};
use crate::entities::{StoredQueueTask, UpdateStoredQueueTask};
use crate::error::AppError;
use crate::json::{json_shape, json_shape_of, JsonShape, JsonShapeView};
use crate::service::execution::{dsl_document_of, DslDocument};

verus! {

/// The stored priority as the routes show it: its low eight bits.
pub open spec fn shown_priority(p: Option<i64>) -> Option<u8> {
    match p {
        Some(x) => Some(x as u8),
        None => None,
    }
}

/// The requested priority as it is stored.
pub open spec fn stored_priority(p: Option<u8>) -> Option<i64> {
    match p {
        Some(x) => Some(x as i64),
        None => None,
    }
}

/// A stored queue task as the routes return it; every field is carried
/// over, the priority as its low eight bits.
pub fn to_dto(stored: StoredQueueTask) -> (r: QueueTaskDto)
    ensures
        r.task_id == stored.task_id,
        r.run_id == stored.run_id,
        r.state_name == stored.state_name,
        r.resource == stored.resource,
        r.task_payload == stored.task_payload,
        r.status == stored.status,
        r.attempts == stored.attempts,
        r.max_attempts == stored.max_attempts,
        r.priority == shown_priority(stored.priority),
        r.timeout_seconds == stored.timeout_seconds,
        r.error_message == stored.error_message,
        r.last_error_at == stored.last_error_at,
        r.next_retry_at == stored.next_retry_at,
        r.queued_at == stored.queued_at,
        r.processing_at == stored.processing_at,
        r.completed_at == stored.completed_at,
        r.failed_at == stored.failed_at,
{
    QueueTaskDto {
        task_id: stored.task_id,
        run_id: stored.run_id,
        state_name: stored.state_name,
        resource: stored.resource,
        task_payload: stored.task_payload,
        status: stored.status,
        attempts: stored.attempts,
        max_attempts: stored.max_attempts,
        priority: match stored.priority {
            Some(p) => Some(#[verifier::truncate] (p as u8)),
            None => None,
        },
        timeout_seconds: stored.timeout_seconds,
        error_message: stored.error_message,
        last_error_at: stored.last_error_at,
        next_retry_at: stored.next_retry_at,
        queued_at: stored.queued_at,
        processing_at: stored.processing_at,
        completed_at: stored.completed_at,
        failed_at: stored.failed_at,
    }
}

/// A requested update as it is written to the store; every field is
/// carried over, the priority widened.
pub fn to_stored_update(dto: UpdateQueueTaskDto) -> (r: UpdateStoredQueueTask)
    ensures
        r.status == dto.status,
        r.task_payload == dto.task_payload,
        r.attempts == dto.attempts,
        r.error_message == dto.error_message,
        r.priority == stored_priority(dto.priority),
        r.timeout_seconds == dto.timeout_seconds,
        r.last_error_at == dto.last_error_at,
        r.next_retry_at == dto.next_retry_at,
        r.processing_at == dto.processing_at,
        r.completed_at == dto.completed_at,
        r.failed_at == dto.failed_at,
{
    UpdateStoredQueueTask {
        status: dto.status,
        task_payload: dto.task_payload,
        attempts: dto.attempts,
        error_message: dto.error_message,
        priority: match dto.priority {
            Some(p) => Some(p as i64),
            None => None,
        },
        timeout_seconds: dto.timeout_seconds,
        last_error_at: dto.last_error_at,
        next_retry_at: dto.next_retry_at,
        processing_at: dto.processing_at,
        completed_at: dto.completed_at,
        failed_at: dto.failed_at,
    }
}

/// A priority set through an update is shown unchanged when the task is
/// read back.
pub proof fn lemma_priority_survives_the_store(p: Option<u8>)
    ensures
        shown_priority(stored_priority(p)) == p,
{
    if let Some(x) = p {
        assert((x as i64) as u8 == x) by (bit_vector);
    }
}

/// The workflow definition in a task payload (JSON text): an object is
/// the document itself, a string holds its text; any other value is
/// refused, as is text that is not JSON.
pub fn payload_document(payload: &str) -> (r: Result<DslDocument, AppError>)
    ensures
        match json_shape_of(payload@) {
            JsonShapeView::Invalid(e) => r matches Err(AppError::BadRequest(m)) && m@ == "invalid DSL: "@ + e,
            JsonShapeView::Other(_) => r matches Err(AppError::BadRequest(m))
                && m@ == "DSL must be a JSON object or string"@,
            shape => r matches Ok(d) && dsl_document_of(shape, d.text@, d.from_string),
        },
{
    match json_shape(payload) {
        JsonShape::Invalid(e) => {
            let mut m = String::from_str("invalid DSL: ");
            m.append(e.as_str());
            Err(AppError::BadRequest(m))
        },
        JsonShape::Object(t) => Ok(DslDocument { text: t, from_string: false }),
        JsonShape::Text(s) => Ok(DslDocument { text: s, from_string: true }),
        JsonShape::Other(_) => Err(AppError::BadRequest(String::from_str("DSL must be a JSON object or string"))),
    }
}

/// The definition to check in the payload of task `dto`; a task without
/// payload is refused.
pub fn task_document(dto: &QueueTaskDto) -> (r: Result<DslDocument, AppError>)
    ensures
        match dto.task_payload {
            None => r matches Err(AppError::BadRequest(m)) && m@ == "task payload is empty"@,
            Some(p) => match json_shape_of(p@) {
                JsonShapeView::Invalid(e) => r matches Err(AppError::BadRequest(m)) && m@ == "invalid DSL: "@ + e,
                JsonShapeView::Other(_) => r matches Err(AppError::BadRequest(m))
                    && m@ == "DSL must be a JSON object or string"@,
                shape => r matches Ok(d) && dsl_document_of(shape, d.text@, d.from_string),
            },
        },
{
    match &dto.task_payload {
        None => Err(AppError::BadRequest(String::from_str("task payload is empty"))),
        Some(p) => payload_document(p.as_str()),
    }
}

} // verus!
