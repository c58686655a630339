//! The persistence hook: the store writes that record a workflow run as
//! its engine events arrive.
use vstd::prelude::*;
use crate::entities::{
    StoredWorkflowEvent, StoredWorkflowExecution, StoredWorkflowState, UpdateStoredWorkflowExecution,
    UpdateStoredWorkflowState,
};
use crate::event::EngineEvent;
use crate::time::{is_instant_text, utc_now};

verus! {

/// One write to the store.
#[derive(Debug, Clone)]
pub enum PersistAction {
    CreateExecution(StoredWorkflowExecution),
    CreateState(StoredWorkflowState),
    CreateEvent(StoredWorkflowEvent),
    UpdateState { state_id: String, state_update: UpdateStoredWorkflowState },
    UpdateExecution { run_id: String, execution_update: UpdateStoredWorkflowExecution },
}

/// The key of the stored state of step `state_name` of run `run_id`.
pub open spec fn state_key(run_id: Seq<char>, state_name: Seq<char>) -> Seq<char> {
    run_id + ":"@ + state_name
}

/// The run record written when run `run_id` starts at `now`.
pub open spec fn is_started_execution(e: StoredWorkflowExecution, run_id: Seq<char>, now: Seq<char>) -> bool {
    &&& e.run_id@ == run_id
    &&& e.workflow_id matches Some(w) && w@ == "wf_"@ + run_id
    &&& e.shard_id == 1
    &&& e.template_id is None
    &&& e.mode@ == "default"@
    &&& e.current_state_name is None
    &&& e.workflow_type@ == "default"@
    &&& e.status@ == "running"@
    &&& e.input is None
    &&& e.input_version == 1
    &&& e.result is None
    &&& e.result_version == 1
    &&& e.start_time@ == now
    &&& e.close_time is None
    &&& e.current_event_id == 0
    &&& e.memo is None
    &&& e.search_attrs is None
    &&& e.context_snapshot is None
    &&& e.version == 1
}

/// The state record written when run `run_id` enters `state_name` with
/// `input` at `now`.
pub open spec fn is_entered_state(
    s: StoredWorkflowState,
    run_id: Seq<char>,
    state_name: Seq<char>,
    input: Seq<char>,
    now: Seq<char>,
) -> bool {
    &&& s.state_id@ == state_key(run_id, state_name)
    &&& s.run_id@ == run_id
    &&& s.shard_id == 1
    &&& s.state_name@ == state_name
    &&& s.state_type@ == "default"@
    &&& s.input matches Some(i) && i@ == input
    &&& s.status@ == "started"@
    &&& s.started_at matches Some(t) && t@ == now
    &&& s.output is None
    &&& s.completed_at is None
    &&& s.error is None
    &&& s.error_details is None
    &&& s.created_at@ == now
    &&& s.updated_at@ == now
    &&& s.version == 1
}

/// The history event of run `run_id` of type `event_type` whose
/// attributes hold `message`, recorded at `now`.
pub open spec fn is_recorded_event(
    e: StoredWorkflowEvent,
    run_id: Seq<char>,
    event_type: Seq<char>,
    message: Seq<char>,
    now: Seq<char>,
) -> bool {
    &&& e.id == 0
    &&& e.run_id@ == run_id
    &&& e.shard_id == 1
    &&& e.event_id == 1
    &&& e.event_type@ == event_type
    &&& e.state_id is None
    &&& e.state_type is None
    &&& e.trace_id is None
    &&& e.parent_event_id is None
    &&& e.context_version is None
    &&& e.attributes matches Some(a) && a@ == message
    &&& e.attr_version == 1
    &&& e.timestamp@ == now
    &&& !e.archived
}

/// A state update that sets only `status`, `completed_at` and either
/// `output` or `error`.
pub open spec fn is_closing_state_update(
    u: UpdateStoredWorkflowState,
    status: Seq<char>,
    output: Option<Seq<char>>,
    error: Option<Seq<char>>,
    now: Seq<char>,
) -> bool {
    &&& u.state_name is None
    &&& u.state_type is None
    &&& u.input is None
    &&& u.status matches Some(st) && st@ == status
    &&& match output {
        Some(o) => u.output matches Some(Some(x)) && x@ == o,
        None => u.output is None,
    }
    &&& u.completed_at matches Some(Some(t)) && t@ == now
    &&& match error {
        Some(m) => u.error matches Some(Some(x)) && x@ == m,
        None => u.error is None,
    }
    &&& u.error_details is None
    &&& u.started_at is None
    &&& u.version is None
}

/// The run update written when a run finishes with `result` at `now`.
pub open spec fn is_completed_execution_update(
    u: UpdateStoredWorkflowExecution,
    result: Seq<char>,
    now: Seq<char>,
) -> bool {
    &&& u.touches_only_outcome()
    &&& u.status matches Some(st) && st@ == "completed"@
    &&& u.result matches Some(Some(x)) && x@ == result
    &&& u.result_version is None
    &&& u.close_time matches Some(Some(t)) && t@ == now
}

/// Writes the key of the state of `state_name` in run `run_id`.
pub fn state_key_of(run_id: &str, state_name: &str) -> (r: String)
    ensures
        r@ == state_key(run_id@, state_name@),
{
    let mut k = String::from_str(run_id);
    k.append(":");
    k.append(state_name);
    k
}

/// The history event recording that run `run_id` had an event of type
/// `event_type` described by `message`, at `now`.
pub fn event_record(run_id: &str, event_type: &str, message: &str, now: &str) -> (r: StoredWorkflowEvent)
    ensures
        is_recorded_event(r, run_id@, event_type@, message@, now@),
{
    StoredWorkflowEvent {
        id: 0,
        run_id: String::from_str(run_id),
        shard_id: 1,
        event_id: 1,
        event_type: String::from_str(event_type),
        state_id: None,
        state_type: None,
        trace_id: None,
        parent_event_id: None,
        context_version: None,
        attributes: Some(String::from_str(message)),
        attr_version: 1,
        timestamp: String::from_str(now),
        archived: false,
    }
}

/// The store writes that record `event` at `now`, in the order they are
/// made: a started run is created; entering a step creates its state
/// (keyed by run and step) and a `NodeEnter` history event; a step's
/// success or failure closes that same state; a finished run is marked
/// completed with its result; every other event writes nothing.
pub open spec fn is_persist_plan(event: EngineEvent, now: Seq<char>, r: Seq<PersistAction>) -> bool {
    match event {
        EngineEvent::WorkflowStarted { run_id } => {
            &&& r.len() == 1
            &&& r[0] matches PersistAction::CreateExecution(e)
                && is_started_execution(e, run_id@, now)
        },
        EngineEvent::NodeEnter { run_id, state_name, input } => {
            &&& r.len() == 2
            &&& r[0] matches PersistAction::CreateState(s)
                && is_entered_state(s, run_id@, state_name@, input@, now)
            &&& r[1] matches PersistAction::CreateEvent(e)
                && is_recorded_event(e, run_id@, "NodeEnter"@, "Entered state: "@ + state_name@, now)
        },
        EngineEvent::NodeSuccess { run_id, state_name, output } => {
            &&& r.len() == 1
            &&& r[0] matches PersistAction::UpdateState { state_id, state_update: update }
                && state_id@ == state_key(run_id@, state_name@)
                && is_closing_state_update(update, "succeeded"@, Some(output@), None, now)
        },
        EngineEvent::NodeFailed { run_id, state_name, error } => {
            &&& r.len() == 1
            &&& r[0] matches PersistAction::UpdateState { state_id, state_update: update }
                && state_id@ == state_key(run_id@, state_name@)
                && is_closing_state_update(update, "failed"@, None, Some(error@), now)
        },
        EngineEvent::WorkflowFinished { run_id, result } => {
            &&& r.len() == 1
            &&& r[0] matches PersistAction::UpdateExecution { run_id: id, execution_update: update }
                && id@ == run_id@
                && is_completed_execution_update(update, result@, now)
        },
        _ => r.len() == 0,
    }
}

/// The store writes that record `event`, at `now` (see [`is_persist_plan`]).
pub fn persist_actions(event: EngineEvent, now: &String) -> (r: Vec<PersistAction>)
    ensures
        is_persist_plan(event, now@, r@),
{
    let mut out: Vec<PersistAction> = Vec::new();
    match event {
        EngineEvent::WorkflowStarted { run_id } => {
            let workflow_id = String::from_str("wf_").concat(run_id.as_str());
            let exec = StoredWorkflowExecution {
                run_id,
                workflow_id: Some(workflow_id),
                shard_id: 1,
                template_id: None,
                mode: String::from_str("default"),
                current_state_name: None,
                workflow_type: String::from_str("default"),
                status: String::from_str("running"),
                input: None,
                input_version: 1,
                result: None,
                result_version: 1,
                start_time: now.clone(),
                close_time: None,
                current_event_id: 0,
                memo: None,
                search_attrs: None,
                context_snapshot: None,
                version: 1,
            };
            out.push(PersistAction::CreateExecution(exec));
        },
        EngineEvent::NodeEnter { run_id, state_name, input } => {
            let state_id = state_key_of(run_id.as_str(), state_name.as_str());
            let message = String::from_str("Entered state: ").concat(state_name.as_str());
            let record = event_record(run_id.as_str(), "NodeEnter", message.as_str(), now.as_str());
            let state = StoredWorkflowState {
                state_id,
                run_id,
                shard_id: 1,
                state_name,
                state_type: String::from_str("default"),
                input: Some(input),
                status: String::from_str("started"),
                started_at: Some(now.clone()),
                output: None,
                completed_at: None,
                error: None,
                error_details: None,
                created_at: now.clone(),
                updated_at: now.clone(),
                version: 1,
            };
            out.push(PersistAction::CreateState(state));
            out.push(PersistAction::CreateEvent(record));
        },
        EngineEvent::NodeSuccess { run_id, state_name, output } => {
            let state_id = state_key_of(run_id.as_str(), state_name.as_str());
            let update = UpdateStoredWorkflowState {
                state_name: None,
                state_type: None,
                input: None,
                status: Some(String::from_str("succeeded")),
                output: Some(Some(output)),
                completed_at: Some(Some(now.clone())),
                error: None,
                error_details: None,
                started_at: None,
                version: None,
            };
            out.push(PersistAction::UpdateState { state_id, state_update: update });
        },
        EngineEvent::NodeFailed { run_id, state_name, error } => {
            let state_id = state_key_of(run_id.as_str(), state_name.as_str());
            let update = UpdateStoredWorkflowState {
                state_name: None,
                state_type: None,
                input: None,
                status: Some(String::from_str("failed")),
                output: None,
                completed_at: Some(Some(now.clone())),
                error: Some(Some(error)),
                error_details: None,
                started_at: None,
                version: None,
            };
            out.push(PersistAction::UpdateState { state_id, state_update: update });
        },
        EngineEvent::WorkflowFinished { run_id, result } => {
            let update = UpdateStoredWorkflowExecution {
                workflow_id: None,
                shard_id: None,
                template_id: None,
                mode: None,
                current_state_name: None,
                workflow_type: None,
                status: Some(String::from_str("completed")),
                input: None,
                input_version: None,
                result: Some(Some(result)),
                result_version: None,
                start_time: None,
                close_time: Some(Some(now.clone())),
                current_event_id: None,
                memo: None,
                search_attrs: None,
                context_snapshot: None,
                version: None,
            };
            out.push(PersistAction::UpdateExecution { run_id, execution_update: update });
        },
        _ => {},
    }
    out
}


/// The success or failure of a step updates the very state record that
/// entering the step created.
pub proof fn lemma_step_outcome_closes_entered_state(
    run_id: String,
    state_name: String,
    input: String,
    outcome: EngineEvent,
    entered_at: String,
    closed_at: String,
    created: Vec<PersistAction>,
    closed: Vec<PersistAction>,
)
    requires
        match outcome {
            EngineEvent::NodeSuccess { run_id: r, state_name: s, .. } => r@ == run_id@ && s@ == state_name@,
            EngineEvent::NodeFailed { run_id: r, state_name: s, .. } => r@ == run_id@ && s@ == state_name@,
            _ => false,
        },
        call_ensures(persist_actions, (EngineEvent::NodeEnter { run_id, state_name, input }, &entered_at), created),
        call_ensures(persist_actions, (outcome, &closed_at), closed),
    ensures
        created@[0] matches PersistAction::CreateState(s) && closed@[0] matches PersistAction::UpdateState {
            state_id,
            ..
        } && state_id@ == s.state_id@,
{
}

/// The completion of a run updates the very run record that its start
/// created.
pub proof fn lemma_finish_updates_started_run(
    run_id: String,
    finished: EngineEvent,
    started_at: String,
    finished_at: String,
    created: Vec<PersistAction>,
    completed: Vec<PersistAction>,
)
    requires
        finished matches EngineEvent::WorkflowFinished { run_id: r, .. } && r@ == run_id@,
        call_ensures(persist_actions, (EngineEvent::WorkflowStarted { run_id }, &started_at), created),
        call_ensures(persist_actions, (finished, &finished_at), completed),
    ensures
        created@[0] matches PersistAction::CreateExecution(e) && completed@[0] matches PersistAction::UpdateExecution {
            run_id: id,
            ..
        } && id@ == e.run_id@,
{
}


/// The store writes that record `event` as it arrives, at the current
/// instant.
pub fn handle_event(event: EngineEvent) -> (r: Vec<PersistAction>)
    ensures
        exists|now: Seq<char>| is_instant_text(now) && #[trigger] is_persist_plan(event, now, r@),
{
    let now = utc_now();
    let r = persist_actions(event, &now);
    assert(is_persist_plan(event, now@, r@));
    r
}

/// A step that fails at `now` has its state, keyed `<run>:<step>`,
/// closed: marked `failed`, given the error and given `now` as the time
/// it completed; it is the one write made.
pub proof fn lemma_failed_step_is_closed_at_now(
    run_id: String,
    state_name: String,
    error: String,
    now: String,
    r: Vec<PersistAction>,
)
    requires
        call_ensures(persist_actions, (EngineEvent::NodeFailed { run_id, state_name, error }, &now), r),
    ensures
        r@.len() == 1,
        r@[0] matches PersistAction::UpdateState { state_id, state_update: u } && {
            &&& state_id@ == run_id@ + ":"@ + state_name@
            &&& u.status matches Some(st) && st@ == "failed"@
            &&& u.error matches Some(Some(e)) && e@ == error@
            &&& u.completed_at matches Some(Some(t)) && t@ == now@
            &&& u.output is None
        },
{
}

/// A step that succeeds at `now` has its state, keyed `<run>:<step>`,
/// closed: marked `succeeded`, given the output and given `now` as the
/// time it completed; it is the one write made.
pub proof fn lemma_succeeded_step_is_closed_at_now(
    run_id: String,
    state_name: String,
    output: String,
    now: String,
    r: Vec<PersistAction>,
)
    requires
        call_ensures(persist_actions, (EngineEvent::NodeSuccess { run_id, state_name, output }, &now), r),
    ensures
        r@.len() == 1,
        r@[0] matches PersistAction::UpdateState { state_id, state_update: u } && {
            &&& state_id@ == run_id@ + ":"@ + state_name@
            &&& u.status matches Some(st) && st@ == "succeeded"@
            &&& u.output matches Some(Some(o)) && o@ == output@
            &&& u.completed_at matches Some(Some(t)) && t@ == now@
            &&& u.error is None
        },
{
}

/// A step entered at `now` gets a new state, keyed `<run>:<step>`, that
/// is `started` at `now` with the step's input and not completed, and a
/// `NodeEnter` history event of the run at `now`.
pub proof fn lemma_entered_step_is_started_at_now(
    run_id: String,
    state_name: String,
    input: String,
    now: String,
    r: Vec<PersistAction>,
)
    requires
        call_ensures(persist_actions, (EngineEvent::NodeEnter { run_id, state_name, input }, &now), r),
    ensures
        r@.len() == 2,
        r@[0] matches PersistAction::CreateState(s) && {
            &&& s.state_id@ == run_id@ + ":"@ + state_name@
            &&& s.run_id@ == run_id@
            &&& s.state_name@ == state_name@
            &&& s.status@ == "started"@
            &&& s.input matches Some(i) && i@ == input@
            &&& s.started_at matches Some(t) && t@ == now@
            &&& s.completed_at is None
        },
        r@[1] matches PersistAction::CreateEvent(e) && {
            &&& e.run_id@ == run_id@
            &&& e.event_type@ == "NodeEnter"@
            &&& e.timestamp@ == now@
        },
{
}

/// A run that starts at `now` gets a new `running` run record that
/// started at `now` and is not closed; a run that finishes at `now` is
/// marked `completed` with its result and closed at `now`.
pub proof fn lemma_run_opens_and_closes_at_now(
    run_id: String,
    result: String,
    now: String,
    started: Vec<PersistAction>,
    finished: Vec<PersistAction>,
)
    requires
        call_ensures(persist_actions, (EngineEvent::WorkflowStarted { run_id }, &now), started),
        call_ensures(persist_actions, (EngineEvent::WorkflowFinished { run_id, result }, &now), finished),
    ensures
        started@.len() == 1,
        started@[0] matches PersistAction::CreateExecution(e) && {
            &&& e.run_id@ == run_id@
            &&& e.status@ == "running"@
            &&& e.start_time@ == now@
            &&& e.close_time is None
        },
        finished@.len() == 1,
        finished@[0] matches PersistAction::UpdateExecution { run_id: id, execution_update: u } && {
            &&& id@ == run_id@
            &&& u.status matches Some(st) && st@ == "completed"@
            &&& u.result matches Some(Some(x)) && x@ == result@
            &&& u.close_time matches Some(Some(t)) && t@ == now@
        },
{
}

/// Events that are not a run's start or finish, nor a step's entry,
/// success or failure, write nothing.
pub proof fn lemma_other_events_write_nothing(event: EngineEvent, now: String, r: Vec<PersistAction>)
    requires
        !(event is WorkflowStarted || event is NodeEnter || event is NodeSuccess || event is NodeFailed
            || event is WorkflowFinished),
        call_ensures(persist_actions, (event, &now), r),
    ensures
        r@.len() == 0,
{
}

} // verus!
