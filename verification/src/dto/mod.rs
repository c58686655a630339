//! The request and response records of the gateway's HTTP interface.
pub mod activity_task;
pub mod execution;
pub mod match_stats;
pub mod queue_task;
pub mod template;
pub mod timer;
pub mod worker;
pub mod workflow_event;
