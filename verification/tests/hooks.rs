use stepflow::event::{EngineEvent, WorkflowMode};
use stepflow::hooks::dispatcher::{delivery_order, BatchBuffer, DeliveryTarget};
use stepflow::hooks::log_hook::LogHook;
use stepflow::hooks::metrics_hook::{metric_actions, MetricAction};
use stepflow::hooks::persist_hook::{event_record, persist_actions, state_key_of, PersistAction};
use stepflow::hooks::ws_hook::ui_event_for;

fn s(x: &str) -> String {
    x.to_string()
}

#[test]
fn test_node_enter_creates_state_and_event() {
    let run_id = "test_run";
    let state_name = "MyState";
    let input = r#"{"key":"value"}"#;
    let now = s("2024-01-02T03:04:05+00:00");
    let actions = persist_actions(
        EngineEvent::NodeEnter { run_id: s(run_id), state_name: s(state_name), input: s(input) },
        &now,
    );
    let states: Vec<_> = actions
        .iter()
        .filter_map(|a| match a {
            PersistAction::CreateState(st) => Some(st),
            _ => None,
        })
        .collect();
    assert_eq!(states.len(), 1);
    assert_eq!(states[0].run_id, run_id);
    assert_eq!(states[0].state_name, state_name);
    assert_eq!(states[0].input, Some(s(input)));

    let events: Vec<_> = actions
        .iter()
        .filter_map(|a| match a {
            PersistAction::CreateEvent(e) => Some(e),
            _ => None,
        })
        .collect();
    assert_eq!(events.len(), 1);
    assert_eq!(events[0].run_id, run_id);
    assert_eq!(events[0].event_type, "NodeEnter");
    assert!(events[0].attributes.as_ref().unwrap().contains(state_name));
}

#[test]
fn persist_started_run_record() {
    let now = s("2024-01-02T03:04:05+00:00");
    let actions = persist_actions(EngineEvent::WorkflowStarted { run_id: s("r1") }, &now);
    assert_eq!(actions.len(), 1);
    match &actions[0] {
        PersistAction::CreateExecution(e) => {
            assert_eq!(e.run_id, "r1");
            assert_eq!(e.workflow_id.as_deref(), Some("wf_r1"));
            assert_eq!(e.shard_id, 1);
            assert_eq!(e.mode, "default");
            assert_eq!(e.workflow_type, "default");
            assert_eq!(e.status, "running");
            assert_eq!(e.start_time, now);
            assert_eq!(e.version, 1);
            assert!(e.close_time.is_none());
        }
        other => panic!("unexpected {:?}", other),
    }
}

#[test]
fn persist_node_enter_state_fields() {
    let now = s("T0");
    let actions = persist_actions(
        EngineEvent::NodeEnter { run_id: s("r"), state_name: s("A"), input: s("1") },
        &now,
    );
    assert_eq!(actions.len(), 2);
    match &actions[0] {
        PersistAction::CreateState(st) => {
            assert_eq!(st.state_id, "r:A");
            assert_eq!(st.state_type, "default");
            assert_eq!(st.status, "started");
            assert_eq!(st.started_at.as_deref(), Some("T0"));
            assert_eq!(st.created_at, "T0");
            assert_eq!(st.updated_at, "T0");
            assert_eq!(st.version, 1);
        }
        other => panic!("unexpected {:?}", other),
    }
    match &actions[1] {
        PersistAction::CreateEvent(e) => {
            assert_eq!(e.attributes.as_deref(), Some("Entered state: A"));
            assert_eq!(e.shard_id, 1);
            assert_eq!(e.event_id, 1);
            assert_eq!(e.attr_version, 1);
            assert!(!e.archived);
            assert_eq!(e.timestamp, "T0");
        }
        other => panic!("unexpected {:?}", other),
    }
}

#[test]
fn persist_success_and_failure_close_the_entered_state() {
    let now = s("T1");
    let ok = persist_actions(
        EngineEvent::NodeSuccess { run_id: s("r"), state_name: s("A"), output: s("[1,2]") },
        &now,
    );
    assert_eq!(ok.len(), 1);
    match &ok[0] {
        PersistAction::UpdateState { state_id, state_update } => {
            assert_eq!(state_id, "r:A");
            assert_eq!(state_update.status.as_deref(), Some("succeeded"));
            assert_eq!(state_update.output, Some(Some(s("[1,2]"))));
            assert_eq!(state_update.completed_at, Some(Some(s("T1"))));
            assert!(state_update.error.is_none());
        }
        other => panic!("unexpected {:?}", other),
    }
    let failed = persist_actions(
        EngineEvent::NodeFailed { run_id: s("r"), state_name: s("A"), error: s("boom") },
        &now,
    );
    match &failed[0] {
        PersistAction::UpdateState { state_id, state_update } => {
            assert_eq!(state_id, "r:A");
            assert_eq!(state_update.status.as_deref(), Some("failed"));
            assert_eq!(state_update.error, Some(Some(s("boom"))));
            assert!(state_update.output.is_none());
        }
        other => panic!("unexpected {:?}", other),
    }
}

#[test]
fn persist_finished_run_and_ignored_events() {
    let now = s("T2");
    let done = persist_actions(EngineEvent::WorkflowFinished { run_id: s("r"), result: s("{}") }, &now);
    match &done[0] {
        PersistAction::UpdateExecution { run_id, execution_update } => {
            assert_eq!(run_id, "r");
            assert_eq!(execution_update.status.as_deref(), Some("completed"));
            assert_eq!(execution_update.result, Some(Some(s("{}"))));
            assert_eq!(execution_update.close_time, Some(Some(s("T2"))));
            assert!(execution_update.mode.is_none());
        }
        other => panic!("unexpected {:?}", other),
    }
    let none = persist_actions(
        EngineEvent::WaitStart { run_id: s("r"), state_name: s("A"), mode: WorkflowMode::Deferred },
        &now,
    );
    assert!(none.is_empty());
}

#[test]
fn persist_helpers() {
    assert_eq!(state_key_of("run", "step"), "run:step");
    let e = event_record("r", "Custom", "msg", "T");
    assert_eq!(e.event_type, "Custom");
    assert_eq!(e.attributes.as_deref(), Some("msg"));
    assert_eq!(e.id, 0);
}

#[test]
fn ws_hook_shows_four_kinds_of_event() {
    let u = ui_event_for(EngineEvent::NodeEnter { run_id: s("r"), state_name: s("A"), input: s("5") }).unwrap();
    assert_eq!((u.event_type.as_str(), u.run_id.as_str(), u.state_name.as_deref(), u.payload.as_str()), ("node_enter", "r", Some("A"), "5"));
    let u = ui_event_for(EngineEvent::NodeSuccess { run_id: s("r"), state_name: s("A"), output: s("6") }).unwrap();
    assert_eq!(u.event_type, "node_success");
    assert_eq!(u.payload, "6");
    let u = ui_event_for(EngineEvent::NodeFailed { run_id: s("r"), state_name: s("A"), error: s("bad \"x\"") }).unwrap();
    assert_eq!(u.event_type, "node_failed");
    assert_eq!(u.payload, r#"{"error":"bad \"x\""}"#);
    let u = ui_event_for(EngineEvent::WorkflowFinished { run_id: s("r"), result: s("null") }).unwrap();
    assert_eq!(u.event_type, "workflow_finished");
    assert!(u.state_name.is_none());
    assert!(ui_event_for(EngineEvent::WorkflowStarted { run_id: s("r") }).is_none());
    assert!(ui_event_for(EngineEvent::TimerError {
        run_id: s("r"),
        state_name: s("A"),
        timer_id: s("t"),
        error: s("e")
    })
    .is_none());
}

#[test]
fn metrics_hook_updates() {
    let a = metric_actions(EngineEvent::WorkflowStarted { run_id: s("r") });
    assert_eq!(a.len(), 1);
    assert!(matches!(&a[0], MetricAction::CountWorkflowStarted { mode } if mode == "deferred"));
    let a = metric_actions(EngineEvent::NodeSuccess { run_id: s("r"), state_name: s("A"), output: s("1") });
    assert_eq!(a.len(), 2);
    assert!(matches!(&a[0], MetricAction::CountNodeSuccess { state } if state == "A"));
    assert!(matches!(&a[1], MetricAction::ObserveNodeDuration { state } if state == "A"));
    let a = metric_actions(EngineEvent::NodeFailed { run_id: s("r"), state_name: s("B"), error: s("x") });
    assert!(matches!(&a[0], MetricAction::CountNodeFailed { state } if state == "B"));
    assert!(metric_actions(EngineEvent::NodeEnter { run_id: s("r"), state_name: s("B"), input: s("1") }).is_empty());
}

#[test]
fn batching_hands_on_full_batches_and_ticks() {
    let mut b: BatchBuffer<u32> = BatchBuffer::new(3);
    assert_eq!(b.batch_size(), 3);
    assert!(b.on_event(1).is_none());
    assert!(b.on_event(2).is_none());
    assert_eq!(b.on_event(3), Some(vec![1, 2, 3]));
    assert!(b.on_tick().is_none());
    assert!(b.on_event(4).is_none());
    assert_eq!(b.on_tick(), Some(vec![4]));
    assert!(b.on_tick().is_none());
}

#[test]
fn batching_keeps_every_event_in_order() {
    let mut b: BatchBuffer<u32> = BatchBuffer::new(2);
    let mut out = Vec::new();
    for i in 0..7u32 {
        if let Some(batch) = b.on_event(i) {
            out.extend(batch);
        }
        if i % 3 == 0 {
            if let Some(batch) = b.on_tick() {
                out.extend(batch);
            }
        }
    }
    if let Some(batch) = b.on_tick() {
        out.extend(batch);
    }
    assert_eq!(out, (0..7).collect::<Vec<u32>>());
}

#[test]
fn batching_with_size_zero_hands_on_each_event() {
    let mut b: BatchBuffer<u32> = BatchBuffer::new(0);
    assert_eq!(b.on_event(9), Some(vec![9]));
    assert!(b.on_tick().is_none());
}

#[test]
fn log_hook_is_shared() {
    let h = LogHook::new();
    let h2 = h.clone();
    assert_eq!(std::sync::Arc::strong_count(&h2), 2);
}

#[test]
fn persist_hook_reads_the_clock() {
    let actions = stepflow::hooks::persist_hook::handle_event(EngineEvent::WorkflowStarted { run_id: s("r9") });
    match &actions[0] {
        PersistAction::CreateExecution(e) => {
            assert_eq!(e.run_id, "r9");
            assert!(chrono::DateTime::parse_from_rfc3339(&e.start_time).is_ok());
        }
        other => panic!("unexpected {:?}", other),
    }
}

#[test]
fn each_event_reaches_every_hook_then_the_bus() {
    assert_eq!(
        delivery_order(2, 3),
        vec![
            (0, DeliveryTarget::Handler(0)),
            (0, DeliveryTarget::Handler(1)),
            (0, DeliveryTarget::Handler(2)),
            (0, DeliveryTarget::Bus),
            (1, DeliveryTarget::Handler(0)),
            (1, DeliveryTarget::Handler(1)),
            (1, DeliveryTarget::Handler(2)),
            (1, DeliveryTarget::Bus),
        ]
    );
    assert_eq!(delivery_order(2, 0), vec![(0, DeliveryTarget::Bus), (1, DeliveryTarget::Bus)]);
    assert!(delivery_order(0, 4).is_empty());
}
