//! The metrics hook: which counters and histograms an engine event moves.
use vstd::prelude::*;
use crate::event::EngineEvent;

verus! {

/// One update of the hook's metrics, each under its label value.
#[derive(Debug, Clone)]
pub enum MetricAction {
    /// Increment `workflow_started_total` under the label `mode`.
    CountWorkflowStarted { mode: String },
    /// Increment `node_success_total` under the label `state`.
    CountNodeSuccess { state: String },
    /// Record one node execution duration in
    /// `node_execution_duration_seconds` under the label `state`.
    ObserveNodeDuration { state: String },
    /// Increment `node_failed_total` under the label `state`.
    CountNodeFailed { state: String },
}

/// The metric updates for `event`, in the order they are applied: a
/// started workflow counts under the mode `deferred`; a node success counts
/// under its state and records a duration sample; a node failure counts
/// under its state; every other event moves no metric.
pub fn metric_actions(event: EngineEvent) -> (r: Vec<MetricAction>)
    ensures
        match event {
            EngineEvent::WorkflowStarted { .. } => {
                &&& r@.len() == 1
                &&& r@[0] matches MetricAction::CountWorkflowStarted { mode } && mode@ == "deferred"@
            },
            EngineEvent::NodeSuccess { state_name, .. } => {
                &&& r@.len() == 2
                &&& r@[0] matches MetricAction::CountNodeSuccess { state } && state == state_name
                &&& r@[1] matches MetricAction::ObserveNodeDuration { state } && state == state_name
            },
            EngineEvent::NodeFailed { state_name, .. } => {
                &&& r@.len() == 1
                &&& r@[0] matches MetricAction::CountNodeFailed { state } && state == state_name
            },
            _ => r@.len() == 0,
        },
{
    let mut out: Vec<MetricAction> = Vec::new();
    match event {
        EngineEvent::WorkflowStarted { .. } => {
            out.push(MetricAction::CountWorkflowStarted { mode: String::from_str("deferred") });
        },
        EngineEvent::NodeSuccess { state_name, .. } => {
            let sample = state_name.clone();
            out.push(MetricAction::CountNodeSuccess { state: state_name });
            out.push(MetricAction::ObserveNodeDuration { state: sample });
        },
        EngineEvent::NodeFailed { state_name, .. } => {
            out.push(MetricAction::CountNodeFailed { state: state_name });
        },
        _ => {},
    }
    out
}

} // verus!
