//! What the HTTP routes decide before and after they call a service: the
//! reading of query parameters, and the worker protocol.
pub mod queue_task;
pub mod timer;
pub mod worker;
