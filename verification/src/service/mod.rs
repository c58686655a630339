//! The rules of the gateway's services: what each request decides, given
//! what the store holds, and what it writes back.
pub mod activity_task;
pub mod execution;
pub mod match_stats;
pub mod queue_task;
pub mod template;
pub mod timer;
pub mod workflow_event;
