//! Activity tasks move from `SCHEDULED` to `RUNNING` when started, and from
//! `RUNNING` to `COMPLETED` or `FAILED`; a running task may send
//! heartbeats. Each request reads the task, checks its state, and writes
//! the update decided here.
use vstd::prelude::*;
use crate::dto::activity_task::{ActivityTaskDto, FailRequest};
use crate::entities::UpdateStoredActivityTask;
use crate::error::AppError;

use crate::time::{is_instant_text, utc_now};
verus! {

/// What a request asks of an activity task.
#[derive(Debug, Clone, Copy, PartialEq, Eq, Structural)]
pub enum TaskAction {
    Start,
    Complete,
    Fail,
    Heartbeat,
}

/// The status a task must have for `action` to be accepted.
pub open spec fn required_status(action: TaskAction) -> Seq<char> {
    match action {
        TaskAction::Start => "SCHEDULED"@,
        _ => "RUNNING"@,
    }
}

/// The status a task has after `action` was accepted.
pub open spec fn status_after(action: TaskAction) -> Seq<char> {
    match action {
        TaskAction::Start => "RUNNING"@,
        TaskAction::Complete => "COMPLETED"@,
        TaskAction::Fail => "FAILED"@,
        TaskAction::Heartbeat => "RUNNING"@,
    }
}

/// The word naming the required state in a refusal.
pub open spec fn state_word(action: TaskAction) -> Seq<char> {
    match action {
        TaskAction::Start => "scheduled"@,
        _ => "running"@,
    }
}

/// The refusal of `action` on task `token` whose status is `status`.
pub open spec fn refusal_message(action: TaskAction, token: Seq<char>, status: Seq<char>) -> Seq<char> {
    "Activity task "@ + token + " is not in "@ + state_word(action) + " state: "@ + status
}

/// An update that changes nothing but what `changes` names.
pub open spec fn only_sets(
    u: UpdateStoredActivityTask,
    status: Option<Seq<char>>,
    result: Option<Seq<char>>,
    error: Option<(Seq<char>, Option<String>)>,
    started: Option<Seq<char>>,
    completed: Option<Seq<char>>,
    heartbeat: Option<Seq<char>>,
) -> bool {
    &&& match status {
        Some(s) => u.status matches Some(x) && x@ == s,
        None => u.status is None,
    }
    &&& match result {
        Some(s) => u.result matches Some(Some(x)) && x@ == s,
        None => u.result is None,
    }
    &&& match error {
        Some((m, d)) => (u.error matches Some(Some(x)) && x@ == m) && u.error_details == Some(d),
        None => u.error is None && u.error_details is None,
    }
    &&& match started {
        Some(t) => u.started_at matches Some(Some(x)) && x@ == t,
        None => u.started_at is None,
    }
    &&& match completed {
        Some(t) => u.completed_at matches Some(Some(x)) && x@ == t,
        None => u.completed_at is None,
    }
    &&& match heartbeat {
        Some(t) => u.heartbeat_at matches Some(Some(x)) && x@ == t,
        None => u.heartbeat_at is None,
    }
}

fn status_is(task: &ActivityTaskDto, expected: &str) -> (r: bool)
    ensures
        r == (task.status@ == expected@),
{
    task.status == String::from_str(expected)
}

fn refusal(action: TaskAction, token: &str, status: &String) -> (r: AppError)
    ensures
        r matches AppError::BadRequest(m) && m@ == refusal_message(action, token@, status@),
{
    let mut m = String::from_str("Activity task ");
    m.append(token);
    m.append(" is not in ");
    match action {
        TaskAction::Start => m.append("scheduled"),
        _ => m.append("running"),
    }
    m.append(" state: ");
    m.append(status.as_str());
    AppError::BadRequest(m)
}

/// Starting task `token` (read as `task`) at `now`: a scheduled task
/// becomes running with its start time set; any other is refused.
pub fn start_task_update(task: &ActivityTaskDto, token: &str, now: &str) -> (r: Result<UpdateStoredActivityTask, AppError>)
    ensures
        task.status@ == required_status(TaskAction::Start) ==> (r matches Ok(u) && only_sets(
            u,
            Some(status_after(TaskAction::Start)),
            None,
            None,
            Some(now@),
            None,
            None,
        )),
        task.status@ != required_status(TaskAction::Start) ==> (r matches Err(AppError::BadRequest(m))
            && m@ == refusal_message(TaskAction::Start, token@, task.status@)),
{
    if !status_is(task, "SCHEDULED") {
        return Err(refusal(TaskAction::Start, token, &task.status));
    }
    Ok(UpdateStoredActivityTask {
        status: Some(String::from_str("RUNNING")),
        result: None,
        error: None,
        error_details: None,
        started_at: Some(Some(String::from_str(now))),
        completed_at: None,
        heartbeat_at: None,
    })
}

/// Completing task `token` with `result` at `now`: a running task becomes
/// completed with its result and completion time; any other is refused.
pub fn complete_task_update(task: &ActivityTaskDto, token: &str, result: String, now: &str) -> (r: Result<UpdateStoredActivityTask, AppError>)
    ensures
        task.status@ == required_status(TaskAction::Complete) ==> (r matches Ok(u) && only_sets(
            u,
            Some(status_after(TaskAction::Complete)),
            Some(result@),
            None,
            None,
            Some(now@),
            None,
        )),
        task.status@ != required_status(TaskAction::Complete) ==> (r matches Err(AppError::BadRequest(m))
            && m@ == refusal_message(TaskAction::Complete, token@, task.status@)),
{
    if !status_is(task, "RUNNING") {
        return Err(refusal(TaskAction::Complete, token, &task.status));
    }
    Ok(UpdateStoredActivityTask {
        status: Some(String::from_str("COMPLETED")),
        result: Some(Some(result)),
        error: None,
        error_details: None,
        started_at: None,
        completed_at: Some(Some(String::from_str(now))),
        heartbeat_at: None,
    })
}

/// Failing task `token` for the reason in `req` at `now`: a running task
/// becomes failed with the reason, its details and the completion time;
/// any other is refused.
pub fn fail_task_update(task: &ActivityTaskDto, token: &str, req: FailRequest, now: &str) -> (r: Result<UpdateStoredActivityTask, AppError>)
    ensures
        task.status@ == required_status(TaskAction::Fail) ==> (r matches Ok(u) && only_sets(
            u,
            Some(status_after(TaskAction::Fail)),
            None,
            Some((req.reason@, req.details)),
            None,
            Some(now@),
            None,
        )),
        task.status@ != required_status(TaskAction::Fail) ==> (r matches Err(AppError::BadRequest(m))
            && m@ == refusal_message(TaskAction::Fail, token@, task.status@)),
{
    if !status_is(task, "RUNNING") {
        return Err(refusal(TaskAction::Fail, token, &task.status));
    }
    Ok(UpdateStoredActivityTask {
        status: Some(String::from_str("FAILED")),
        result: None,
        error: Some(Some(req.reason)),
        error_details: Some(req.details),
        started_at: None,
        completed_at: Some(Some(String::from_str(now))),
        heartbeat_at: None,
    })
}

/// A heartbeat for task `token` at `now`: a running task gets its
/// heartbeat time set and nothing else; any other is refused.
pub fn heartbeat_task_update(task: &ActivityTaskDto, token: &str, now: &str) -> (r: Result<UpdateStoredActivityTask, AppError>)
    ensures
        task.status@ == required_status(TaskAction::Heartbeat) ==> (r matches Ok(u) && only_sets(
            u,
            None,
            None,
            None,
            None,
            None,
            Some(now@),
        )),
        task.status@ != required_status(TaskAction::Heartbeat) ==> (r matches Err(AppError::BadRequest(m))
            && m@ == refusal_message(TaskAction::Heartbeat, token@, task.status@)),
{
    if !status_is(task, "RUNNING") {
        return Err(refusal(TaskAction::Heartbeat, token, &task.status));
    }
    Ok(UpdateStoredActivityTask {
        status: None,
        result: None,
        error: None,
        error_details: None,
        started_at: None,
        completed_at: None,
        heartbeat_at: Some(Some(String::from_str(now))),
    })
}

/// The status under which the task list is read.
pub fn listed_status() -> (r: String)
    ensures
        r@ == "SCHEDULED"@,
{
    String::from_str("SCHEDULED")
}

/// Whether a task belongs to run `run_id`.
pub open spec fn in_run(run_id: Seq<char>) -> spec_fn(ActivityTaskDto) -> bool {
    |t: ActivityTaskDto| t.run_id@ == run_id
}

/// The task list of run `run_id`, from `tasks`, every stored activity
/// task: exactly the tasks of that run, whatever their status, in the
/// order they are stored.
pub fn tasks_of_run(tasks: Vec<ActivityTaskDto>, run_id: &str) -> (r: Vec<ActivityTaskDto>)
    ensures
        r@ == tasks@.filter(in_run(run_id@)),
        forall|i: int| 0 <= i < r@.len() ==> (#[trigger] r@[i]).run_id@ == run_id@,
        forall|i: int| 0 <= i < tasks@.len() && (#[trigger] tasks@[i]).run_id@ == run_id@ ==> r@.contains(tasks@[i]),
{
    let ghost keep = in_run(run_id@);
    let mut out: Vec<ActivityTaskDto> = Vec::new();
    let mut rest = tasks;
    let ghost all = rest@;
    let n = rest.len();
    let mut i: usize = 0;
    while i < n
        invariant
            n == all.len(),
            i <= n,
            rest@ == all.skip(i as int),
            keep == in_run(run_id@),
            out@ == all.take(i as int).filter(keep),
        decreases n - i,
    {
        let t = rest.remove(0);
        proof {
            assert(t == all[i as int]);
            assert(all.skip(i as int).drop_first() =~= all.skip(i as int + 1));
            assert(all.take(i as int + 1).drop_last() =~= all.take(i as int));
            assert(all.take(i as int + 1).last() == t);
            reveal_with_fuel(Seq::filter, 1);
        }
        let target = String::from_str(run_id);
        if t.run_id == target {
            assert(keep(t));
            out.push(t);
        } else {
            assert(!keep(t));
        }
        i = i + 1;
    }
    assert(all.take(n as int) =~= all);
    proof {
        broadcast use vstd::seq_lib::group_filter_ensures;
        assert forall|i: int| 0 <= i < out@.len() implies (#[trigger] out@[i]).run_id@ == run_id@ by {
            assert(keep(out@[i]));
        }
        assert forall|i: int| 0 <= i < all.len() && (#[trigger] all[i]).run_id@ == run_id@ implies out@.contains(all[i]) by {
            assert(keep(all[i]));
        }
    }
    out
}

/// No request moves a task out of `COMPLETED` or `FAILED`: every action
/// is refused on a task in either state.
pub proof fn lemma_finished_tasks_refuse_everything(action: TaskAction, status: Seq<char>)
    requires
        status == "COMPLETED"@ || status == "FAILED"@,
    ensures
        status != required_status(action),
{
    reveal_strlit("COMPLETED");
    reveal_strlit("FAILED");
    reveal_strlit("SCHEDULED");
    reveal_strlit("RUNNING");
    if status == "COMPLETED"@ {
        assert(status[0] == 'C');
        assert("SCHEDULED"@[0] == 'S');
    } else {
        assert(status.len() == 6);
    }
}

/// The accepted path of a task: a started task is running, and a running
/// task can be completed, failed or kept alive, after which a completed or
/// failed task accepts nothing more.
pub proof fn lemma_task_lifecycle()
    ensures
        status_after(TaskAction::Start) == required_status(TaskAction::Complete),
        status_after(TaskAction::Start) == required_status(TaskAction::Fail),
        status_after(TaskAction::Heartbeat) == required_status(TaskAction::Heartbeat),
        forall|a: TaskAction| status_after(TaskAction::Complete) != required_status(a),
        forall|a: TaskAction| status_after(TaskAction::Fail) != required_status(a),
{
    assert forall|a: TaskAction| status_after(TaskAction::Complete) != required_status(a) by {
        lemma_finished_tasks_refuse_everything(a, "COMPLETED"@);
    }
    assert forall|a: TaskAction| status_after(TaskAction::Fail) != required_status(a) by {
        lemma_finished_tasks_refuse_everything(a, "FAILED"@);
    }
}


/// Starts task `token` (read as `task`) now: as [`start_task_update`] at
/// the current instant.
pub fn start_task(task: &ActivityTaskDto, token: &str) -> (r: Result<UpdateStoredActivityTask, AppError>)
    ensures
        task.status@ == required_status(TaskAction::Start) ==> (r matches Ok(u) && u.started_at matches Some(Some(t)) && is_instant_text(t@)
            && only_sets(u, Some(status_after(TaskAction::Start)), None, None, Some(t@), None, None)),
        task.status@ != required_status(TaskAction::Start) ==> (r matches Err(AppError::BadRequest(m))
            && m@ == refusal_message(TaskAction::Start, token@, task.status@)),
{
    let now = utc_now();
    start_task_update(task, token, now.as_str())
}

/// Completes task `token` with `result` now: as [`complete_task_update`]
/// at the current instant.
pub fn complete_task(task: &ActivityTaskDto, token: &str, result: String) -> (r: Result<UpdateStoredActivityTask, AppError>)
    ensures
        task.status@ == required_status(TaskAction::Complete) ==> (r matches Ok(u) && u.completed_at matches Some(Some(t)) && is_instant_text(t@)
            && only_sets(u, Some(status_after(TaskAction::Complete)), Some(result@), None, None, Some(t@), None)),
        task.status@ != required_status(TaskAction::Complete) ==> (r matches Err(AppError::BadRequest(m))
            && m@ == refusal_message(TaskAction::Complete, token@, task.status@)),
{
    let now = utc_now();
    complete_task_update(task, token, result, now.as_str())
}

/// Fails task `token` for the reason in `req` now: as
/// [`fail_task_update`] at the current instant.
pub fn fail_task(task: &ActivityTaskDto, token: &str, req: FailRequest) -> (r: Result<UpdateStoredActivityTask, AppError>)
    ensures
        task.status@ == required_status(TaskAction::Fail) ==> (r matches Ok(u) && u.completed_at matches Some(Some(t)) && is_instant_text(t@)
            && only_sets(u, Some(status_after(TaskAction::Fail)), None, Some((req.reason@, req.details)), None, Some(t@), None)),
        task.status@ != required_status(TaskAction::Fail) ==> (r matches Err(AppError::BadRequest(m))
            && m@ == refusal_message(TaskAction::Fail, token@, task.status@)),
{
    let now = utc_now();
    fail_task_update(task, token, req, now.as_str())
}

/// Records a heartbeat of task `token` now: as [`heartbeat_task_update`]
/// at the current instant.
pub fn heartbeat_task(task: &ActivityTaskDto, token: &str) -> (r: Result<UpdateStoredActivityTask, AppError>)
    ensures
        task.status@ == required_status(TaskAction::Heartbeat) ==> (r matches Ok(u) && u.heartbeat_at matches Some(Some(t)) && is_instant_text(t@)
            && only_sets(u, None, None, None, None, None, Some(t@))),
        task.status@ != required_status(TaskAction::Heartbeat) ==> (r matches Err(AppError::BadRequest(m))
            && m@ == refusal_message(TaskAction::Heartbeat, token@, task.status@)),
{
    let now = utc_now();
    heartbeat_task_update(task, token, now.as_str())
}

/// The life of an activity task: a `SCHEDULED` task can only be started,
/// which makes it `RUNNING` from `now`; a `RUNNING` task can be completed
/// (`COMPLETED`, with its result, at `now`), failed (`FAILED`, with the
/// reason and its details, at `now`) or sent a heartbeat (its heartbeat
/// time becomes `now`, its status stays); every request on a task in any
/// other status is refused as a bad request.
pub proof fn lemma_task_requests_by_status(
    task: ActivityTaskDto,
    token: &str,
    result: String,
    req: FailRequest,
    now: &str,
    started: Result<UpdateStoredActivityTask, AppError>,
    completed: Result<UpdateStoredActivityTask, AppError>,
    failed: Result<UpdateStoredActivityTask, AppError>,
    beat: Result<UpdateStoredActivityTask, AppError>,
)
    requires
        call_ensures(start_task_update, (&task, token, now), started),
        call_ensures(complete_task_update, (&task, token, result, now), completed),
        call_ensures(fail_task_update, (&task, token, req, now), failed),
        call_ensures(heartbeat_task_update, (&task, token, now), beat),
    ensures
        task.status@ == "SCHEDULED"@ ==> {
            &&& started matches Ok(u) && (u.status matches Some(st) && st@ == "RUNNING"@) && (
            u.started_at matches Some(Some(t)) && t@ == now@) && u.completed_at is None
            &&& completed matches Err(AppError::BadRequest(_))
            &&& failed matches Err(AppError::BadRequest(_))
            &&& beat matches Err(AppError::BadRequest(_))
        },
        task.status@ == "RUNNING"@ ==> {
            &&& started matches Err(AppError::BadRequest(_))
            &&& completed matches Ok(u) && (u.status matches Some(st) && st@ == "COMPLETED"@) && (
            u.result matches Some(Some(x)) && x@ == result@) && (u.completed_at matches Some(Some(t)) && t@
                == now@) && u.error is None
            &&& failed matches Ok(u) && (u.status matches Some(st) && st@ == "FAILED"@) && (
            u.error matches Some(Some(x)) && x@ == req.reason@) && u.error_details == Some(req.details) && (
            u.completed_at matches Some(Some(t)) && t@ == now@) && u.result is None
            &&& beat matches Ok(u) && u.status is None && (u.heartbeat_at matches Some(Some(t)) && t@
                == now@) && u.completed_at is None
        },
        task.status@ != "SCHEDULED"@ && task.status@ != "RUNNING"@ ==> {
            &&& started matches Err(AppError::BadRequest(_))
            &&& completed matches Err(AppError::BadRequest(_))
            &&& failed matches Err(AppError::BadRequest(_))
            &&& beat matches Err(AppError::BadRequest(_))
        },
{
    reveal_strlit("SCHEDULED");
    reveal_strlit("RUNNING");
    assert("SCHEDULED"@.len() == 9 && "RUNNING"@.len() == 7);
    assert(required_status(TaskAction::Start) == "SCHEDULED"@);
    assert(required_status(TaskAction::Complete) == "RUNNING"@);
    assert(required_status(TaskAction::Fail) == "RUNNING"@);
    assert(required_status(TaskAction::Heartbeat) == "RUNNING"@);
}

} // verus!
