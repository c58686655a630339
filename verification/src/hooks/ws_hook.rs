//! The websocket hook: which engine events are shown to UI clients, and how.
use vstd::prelude::*;
use crate::event::{EngineEvent, UiEvent};
use crate::json::{single_string_member_object, string_member_object};

verus! {

/// The UI event that the websocket hook pushes for `event`: node entries,
/// successes and failures and workflow completions are shown (a failure
/// with the payload `{"error": <message>}`); every other event is not.
pub fn ui_event_for(event: EngineEvent) -> (r: Option<UiEvent>)
    ensures
        match event {
            EngineEvent::NodeEnter { run_id, state_name, input } => r matches Some(u) && {
                &&& u.event_type@ == "node_enter"@
                &&& u.run_id == run_id
                &&& u.state_name == Some(state_name)
                &&& u.payload == input
            },
            EngineEvent::NodeSuccess { run_id, state_name, output } => r matches Some(u) && {
                &&& u.event_type@ == "node_success"@
                &&& u.run_id == run_id
                &&& u.state_name == Some(state_name)
                &&& u.payload == output
            },
            EngineEvent::NodeFailed { run_id, state_name, error } => r matches Some(u) && {
                &&& u.event_type@ == "node_failed"@
                &&& u.run_id == run_id
                &&& u.state_name == Some(state_name)
                &&& u.payload@ == single_string_member_object("error"@, error@)
            },
            EngineEvent::WorkflowFinished { run_id, result } => r matches Some(u) && {
                &&& u.event_type@ == "workflow_finished"@
                &&& u.run_id == run_id
                &&& u.state_name is None
                &&& u.payload == result
            },
            _ => r is None,
        },
{
    match event {
        EngineEvent::NodeEnter { run_id, state_name, input } => Some(
            UiEvent {
                event_type: String::from_str("node_enter"),
                run_id,
                state_name: Some(state_name),
                payload: input,
            },
        ),
        EngineEvent::NodeSuccess { run_id, state_name, output } => Some(
            UiEvent {
                event_type: String::from_str("node_success"),
                run_id,
                state_name: Some(state_name),
                payload: output,
            },
        ),
        EngineEvent::NodeFailed { run_id, state_name, error } => {
            let payload = string_member_object("error", error.as_str());
            Some(
                UiEvent {
                    event_type: String::from_str("node_failed"),
                    run_id,
                    state_name: Some(state_name),
                    payload,
                },
            )
        },
        EngineEvent::WorkflowFinished { run_id, result } => Some(
            UiEvent {
                event_type: String::from_str("workflow_finished"),
                run_id,
                state_name: None,
                payload: result,
            },
        ),
        _ => None,
    }
}

} // verus!
