//! Statistics of the matching queue.
use vstd::prelude::*;

verus! {

/// The head of the in-memory queue; `created_at` is RFC 3339 text.
#[derive(Debug, Clone)]
pub struct QueueTaskPreview {
    pub run_id: String,
    pub state_name: String,
    pub priority: u8,
    pub created_at: String,
}

/// The in-memory queue: its length and its head.
#[derive(Debug, Clone)]
pub struct MemoryStats {
    pub total: usize,
    pub peek: Option<QueueTaskPreview>,
}

/// The stored queue tasks, counted by status.
#[derive(Debug, Clone, Copy, PartialEq, Eq, Structural)]
pub struct DbStats {
    pub pending: usize,
    pub processing: usize,
    pub completed: usize,
    pub failed: usize,
    pub retrying: usize,
}

/// Both views of the queue.
#[derive(Debug, Clone)]
pub struct MatchStatsResponse {
    pub memory: MemoryStats,
    pub db: DbStats,
}

} // verus!
