//! What the event hooks do with an engine event, and how the dispatcher
//! batches events on their way to the hooks.
pub mod dispatcher;
pub mod log_hook;
pub mod metrics_hook;
pub mod persist_hook;
pub mod ws_hook;
