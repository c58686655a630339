//! Creating, reading and updating timers.
use vstd::prelude::*;
use crate::dto::timer::{CreateTimerDto, TimerDto, UpdateTimerDto};
use crate::entities::{StoredTimer, UpdateStoredTimer};

use crate::time::{is_instant_text, utc_now};
verus! {

/// A stored timer as the routes return it, every field carried over.
pub fn to_dto(stored: StoredTimer) -> (r: TimerDto)
    ensures
        r.timer_id == stored.timer_id,
        r.run_id == stored.run_id,
        r.shard_id == stored.shard_id,
        r.fire_at == stored.fire_at,
        r.status == stored.status,
        r.version == stored.version,
        r.state_name == stored.state_name,
        r.payload == stored.payload,
        r.created_at == stored.created_at,
        r.updated_at == stored.updated_at,
{
    TimerDto {
        timer_id: stored.timer_id,
        run_id: stored.run_id,
        shard_id: stored.shard_id,
        fire_at: stored.fire_at,
        status: stored.status,
        version: stored.version,
        state_name: stored.state_name,
        payload: stored.payload,
        created_at: stored.created_at,
        updated_at: stored.updated_at,
    }
}

/// A requested timer update as it is written to the store.
pub fn to_stored_update(dto: UpdateTimerDto) -> (r: UpdateStoredTimer)
    ensures
        r.fire_at == dto.fire_at,
        r.status == dto.status,
        r.version == dto.version,
        r.payload == dto.payload,
{
    UpdateStoredTimer { fire_at: dto.fire_at, status: dto.status, version: dto.version, payload: dto.payload }
}

/// The timer record that a create request writes at `now`: the request's
/// fields, created and last updated at `now`.
pub fn new_timer_record(dto: CreateTimerDto, now: &String) -> (r: StoredTimer)
    ensures
        r.timer_id == dto.timer_id,
        r.run_id == dto.run_id,
        r.shard_id == dto.shard_id,
        r.fire_at == dto.fire_at,
        r.status == dto.status,
        r.version == dto.version,
        r.state_name == dto.state_name,
        r.payload == dto.payload,
        r.created_at@ == now@,
        r.updated_at@ == now@,
{
    StoredTimer {
        timer_id: dto.timer_id,
        run_id: dto.run_id,
        shard_id: dto.shard_id,
        fire_at: dto.fire_at,
        status: dto.status,
        version: dto.version,
        state_name: dto.state_name,
        payload: dto.payload,
        created_at: now.clone(),
        updated_at: now.clone(),
    }
}


/// A created timer reads back as it was requested, created and last
/// updated at the moment of its creation.
pub proof fn lemma_created_timer_reads_back(req: CreateTimerDto, now: String, stored: StoredTimer, shown: TimerDto)
    requires
        call_ensures(new_timer_record, (req, &now), stored),
        call_ensures(to_dto, (stored,), shown),
    ensures
        shown.timer_id == req.timer_id,
        shown.run_id == req.run_id,
        shown.shard_id == req.shard_id,
        shown.fire_at == req.fire_at,
        shown.status == req.status,
        shown.version == req.version,
        shown.state_name == req.state_name,
        shown.payload == req.payload,
        shown.created_at@ == now@,
        shown.updated_at@ == now@,
{
}


/// The timer record that a create request writes now: as
/// [`new_timer_record`] at the current instant.
pub fn create_timer(dto: CreateTimerDto) -> (r: StoredTimer)
    ensures
        r.timer_id == dto.timer_id,
        r.run_id == dto.run_id,
        r.shard_id == dto.shard_id,
        r.fire_at == dto.fire_at,
        r.status == dto.status,
        r.version == dto.version,
        r.state_name == dto.state_name,
        r.payload == dto.payload,
        r.updated_at@ == r.created_at@,
        is_instant_text(r.created_at@),
{
    let now = utc_now();
    new_timer_record(dto, &now)
}

} // verus!
