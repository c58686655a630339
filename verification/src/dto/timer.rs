//! Timers: the records and requests of the timer routes. Payloads are
//! JSON text, instants RFC 3339 text.
use vstd::prelude::*;

verus! {

/// A timer as the routes return it.
#[derive(Debug, Clone)]
pub struct TimerDto {
    pub timer_id: String,
    pub run_id: String,
    pub shard_id: i64,
    pub fire_at: String,
    pub status: String,
    pub version: i64,
    pub state_name: Option<String>,
    pub payload: Option<String>,
    pub created_at: String,
    pub updated_at: String,
}

/// A request to create a timer.
#[derive(Debug, Clone)]
pub struct CreateTimerDto {
    pub timer_id: String,
    pub run_id: String,
    pub shard_id: i64,
    pub fire_at: String,
    pub status: String,
    pub version: i64,
    pub state_name: Option<String>,
    pub payload: Option<String>,
}

/// A partial update of a timer.
#[derive(Debug, Clone)]
pub struct UpdateTimerDto {
    pub fire_at: Option<String>,
    pub status: Option<String>,
    pub version: Option<i64>,
    pub payload: Option<Option<String>>,
}

} // verus!
