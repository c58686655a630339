//! The tool worker: it polls the gateway for tasks, runs each with the
//! tool its resource names, and reports the outcome. Here are its
//! configuration and what it makes of the gateway's answers.
use vstd::prelude::*;
use crate::json::{empty_object, empty_object_text, single_string_member_object, string_member_object};
use crate::text::{decimal_string, decimal_text, trim, trimmed};

verus! {

pub const DEFAULT_GATEWAY_SERVER_URL: &'static str = "http://127.0.0.1:3000/v1/worker";

pub const DEFAULT_WORKER_ID: &'static str = "tool-worker";

/// How many workers poll side by side.
pub const MAX_CONCURRENCY: usize = 4;

/// Who a worker is and where it polls.
#[derive(Debug, Clone)]
pub struct WorkerConfig {
    pub worker_id: String,
    pub gateway_server_url: String,
}

impl WorkerConfig {
    /// The configuration of worker number `index`, from the settings
    /// `WORKER_ID` and `GATEWAY_SERVER_URL` where they are set: its id is
    /// the base id, a hyphen and its number.
    pub fn from_settings(base_id: Option<String>, server_url: Option<String>, index: usize) -> (r: WorkerConfig)
        ensures
            r.worker_id@ == (match base_id {
                Some(b) => b@,
                None => DEFAULT_WORKER_ID@,
            }) + "-"@ + decimal_text(index as nat),
            r.gateway_server_url@ == match server_url {
                Some(u) => u@,
                None => DEFAULT_GATEWAY_SERVER_URL@,
            },
    {
        let mut worker_id = match base_id {
            Some(b) => b,
            None => String::from_str(DEFAULT_WORKER_ID),
        };
        worker_id.append("-");
        let number = decimal_string(index);
        worker_id.append(number.as_str());
        let gateway_server_url = match server_url {
            Some(u) => u,
            None => String::from_str(DEFAULT_GATEWAY_SERVER_URL),
        };
        WorkerConfig { worker_id, gateway_server_url }
    }

    /// Where the worker polls for a task.
    pub fn poll_url(&self) -> (r: String)
        ensures
            r@ == self.gateway_server_url@ + "/poll"@,
    {
        String::from_str(self.gateway_server_url.as_str()).concat("/poll")
    }

    /// Where the worker reports a task's outcome.
    pub fn update_url(&self) -> (r: String)
        ensures
            r@ == self.gateway_server_url@ + "/update"@,
    {
        String::from_str(self.gateway_server_url.as_str()).concat("/update")
    }
}

/// A task as the gateway hands it out; `task_payload` is JSON text.
#[derive(Debug, Clone)]
pub struct InnerTask {
    pub run_id: String,
    pub state_name: String,
    pub resource: String,
    pub task_payload: Option<String>,
}

/// The gateway's answer to a poll.
#[derive(Debug, Clone)]
pub struct PollApiResponse {
    pub has_task: bool,
    pub task: Option<InnerTask>,
}

/// A task to run: the tool to run it with, and its input (JSON text).
#[derive(Debug, Clone)]
pub struct TaskDetails {
    pub run_id: String,
    pub state_name: String,
    pub tool_type: String,
    pub input: String,
}

/// The outcome reported to the gateway; `result` is JSON text.
#[derive(Debug, Clone)]
pub struct TaskResult {
    pub run_id: String,
    pub state_name: String,
    pub status: String,
    pub result: String,
}

/// What the worker makes of a poll answer: no task; a task whose tool is
/// its resource without surrounding white space and whose input is its
/// payload, or the empty object; or an error if that tool name is empty.
pub fn task_details(res: PollApiResponse) -> (r: Result<Option<TaskDetails>, String>)
    ensures
        match res.task {
            None => r matches Ok(None),
            Some(t) => if trimmed(t.resource@).len() == 0 {
                r matches Err(m) && m@ == "Received task with empty resource/tool_type"@
            } else {
                r matches Ok(Some(d)) && {
                    &&& d.run_id == t.run_id
                    &&& d.state_name == t.state_name
                    &&& d.tool_type@ == trimmed(t.resource@)
                    &&& d.input@ == match t.task_payload {
                        Some(p) => p@,
                        None => empty_object_text(),
                    }
                }
            },
        },
{
    match res.task {
        None => Ok(None),
        Some(t) => {
            let tool_type = trim(t.resource.as_str());
            if tool_type.unicode_len() == 0 {
                return Err(String::from_str("Received task with empty resource/tool_type"));
            }
            let input = match t.task_payload {
                Some(p) => p,
                None => empty_object(),
            };
            Ok(Some(TaskDetails { run_id: t.run_id, state_name: t.state_name, tool_type, input }))
        },
    }
}

/// The report for `task` after its tool produced `outcome`: the output
/// on success, or `{"error": <message>}` on failure.
pub fn task_result(task: TaskDetails, outcome: Result<String, String>) -> (r: TaskResult)
    ensures
        r.run_id == task.run_id,
        r.state_name == task.state_name,
        match outcome {
            Ok(out) => r.status@ == "SUCCEEDED"@ && r.result == out,
            Err(e) => r.status@ == "FAILED"@ && r.result@ == single_string_member_object("error"@, e@),
        },
{
    match outcome {
        Ok(out) => TaskResult {
            run_id: task.run_id,
            state_name: task.state_name,
            status: String::from_str("SUCCEEDED"),
            result: out,
        },
        Err(e) => TaskResult {
            run_id: task.run_id,
            state_name: task.state_name,
            status: String::from_str("FAILED"),
            result: string_member_object("error", e.as_str()),
        },
    }
}

} // verus!
