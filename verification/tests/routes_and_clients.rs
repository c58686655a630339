use stepflow::dto::execution::ExecDto;
use stepflow::dto::worker::{PollResponse, UpdateRequest};
use stepflow::error::AppError;
use stepflow::event::{EngineEvent, ExecutionSignal, TaskStatus};
use stepflow::frb::{exec_start_request, execution_result, update_result, FrbExecUpdateRequest, FrbStartExecutionRequest};
use stepflow::routes::queue_task::{list_by_status_params, list_to_retry_params};
use stepflow::routes::timer::find_before_params;
use stepflow::routes::worker::{engine_signal, match_poll_timeout, poll_response, queue_patch, MatchedTask, DEFAULT_QUEUE, POLL_TIMEOUT_S};
use stepflow::runner::{
    report_take, retire_engine, runner_run, runner_step, runner_take, settle_engine, DriveOutcome, EngineTable, RunnerAction,
};
use stepflow::tool_worker::{task_details, task_result, InnerTask, PollApiResponse, TaskDetails, WorkerConfig, MAX_CONCURRENCY};

fn s(x: &str) -> String {
    x.to_string()
}

#[test]
fn queue_list_params() {
    assert_eq!(list_by_status_params(None, &None, &None), (s("pending"), 100, 0));
    assert_eq!(list_by_status_params(Some(s("failed")), &Some(s("5")), &Some(s("10"))), (s("failed"), 5, 10));
    assert_eq!(list_by_status_params(None, &Some(s("abc")), &Some(s("-3"))), (s("pending"), 100, -3));
}

#[test]
fn retry_params() {
    assert!(matches!(list_to_retry_params(&None, &None), Err(AppError::BadRequest(m)) if m == "missing 'before' param"));
    assert_eq!(list_to_retry_params(&Some(s("2024-01-01T00:00:00")), &None).unwrap(), (s("2024-01-01T00:00:00+00:00"), 50));
    assert_eq!(list_to_retry_params(&Some(s("2024-01-01T00:00:00")), &Some(s("9"))).unwrap().1, 9);
    assert!(matches!(list_to_retry_params(&Some(s("soon")), &None), Err(AppError::BadRequest(m)) if m.starts_with("invalid datetime: ")));
}

#[test]
fn timer_params() {
    assert!(matches!(find_before_params(&None, &None), Err(AppError::BadRequest(m)) if m == "缺少 before 参数"));
    assert_eq!(find_before_params(&Some(s("2024-01-01T00:00:00Z")), &None).unwrap(), (s("2024-01-01T00:00:00+00:00"), 100));
    assert!(matches!(find_before_params(&Some(s("x")), &None), Err(AppError::BadRequest(m)) if m.starts_with("时间格式错误: ")));
}

#[test]
fn worker_poll() {
    assert_eq!(DEFAULT_QUEUE, "default_task_queue");
    assert_eq!(POLL_TIMEOUT_S, 30);
    let r = poll_response(Some(MatchedTask {
        task_id: s("t1"),
        run_id: s("r"),
        state_name: s("A"),
        resource: s("http"),
        task_payload: Some(s("{}")),
    }));
    assert!(r.has_task);
    assert_eq!(r.tool_type.as_deref(), Some("http"));
    assert_eq!(r.task_id.as_deref(), Some("t1"));
    let e = poll_response(None);
    assert!(!e.has_task && e.run_id.is_none());
    let e2 = PollResponse::empty();
    assert!(e2.input.is_none());
}

#[test]
fn worker_report() {
    let now = s("T");
    let res = s("{\"v\":1}");
    let p = queue_patch(TaskStatus::SUCCEEDED, &res, &now);
    assert_eq!(p.status.as_deref(), Some("completed"));
    assert_eq!(p.task_payload, Some(Some(res.clone())));
    assert_eq!(p.completed_at, Some(Some(now.clone())));
    let p = queue_patch(TaskStatus::FAILED, &res, &now);
    assert_eq!(p.status.as_deref(), Some("failed"));
    assert_eq!(p.error_message, Some(Some(res.clone())));
    assert_eq!(p.failed_at, Some(Some(now.clone())));
    let p = queue_patch(TaskStatus::CANCELLED, &res, &now);
    assert_eq!(p.status.as_deref(), Some("cancelled"));
    let req = |st| UpdateRequest { run_id: s("r"), state_name: s("A"), status: st, result: s("9") };
    assert!(matches!(engine_signal(req(TaskStatus::SUCCEEDED)), ExecutionSignal::TaskCompleted { output, .. } if output == "9"));
    assert!(matches!(engine_signal(req(TaskStatus::FAILED)), ExecutionSignal::TaskFailed { error, .. } if error == "9"));
    assert!(matches!(engine_signal(req(TaskStatus::CANCELLED)), ExecutionSignal::TaskCancelled { reason: Some(r), .. } if r == "9"));
}

#[test]
fn runner() {
    let finished = || EngineEvent::TaskFinished { run_id: s("r"), state_name: s("A"), output: s("1") };
    assert_eq!(runner_run(&finished()), Some(s("r")));
    assert_eq!(runner_run(&EngineEvent::WorkflowStarted { run_id: s("r") }), None);
    assert!(matches!(
        runner_step(finished(), true),
        RunnerAction::Resume { run_id: r, signal: ExecutionSignal::TaskCompleted { run_id, state_name, output } }
            if r == "r" && run_id == "r" && state_name == "A" && output == "1"
    ));
    assert!(matches!(runner_step(finished(), false), RunnerAction::Ignore));
    assert!(matches!(runner_step(EngineEvent::WorkflowStarted { run_id: s("r") }, true), RunnerAction::Ignore));
}

#[test]
fn engine_leaves_table_only_when_finished() {
    assert!(retire_engine(DriveOutcome::Advanced { finished: true }));
    assert!(!retire_engine(DriveOutcome::Advanced { finished: false }));
    assert!(!retire_engine(DriveOutcome::SignalRefused));
    assert!(!retire_engine(DriveOutcome::HandleFailed));
    assert!(!retire_engine(DriveOutcome::AdvanceFailed));
}

#[test]
fn tool_worker_config() {
    assert_eq!(MAX_CONCURRENCY, 4);
    let c = WorkerConfig::from_settings(None, None, 3);
    assert_eq!(c.worker_id, "tool-worker-3");
    assert_eq!(c.gateway_server_url, "http://127.0.0.1:3000/v1/worker");
    assert_eq!(c.poll_url(), "http://127.0.0.1:3000/v1/worker/poll");
    assert_eq!(c.update_url(), "http://127.0.0.1:3000/v1/worker/update");
    let c = WorkerConfig::from_settings(Some(s("w")), Some(s("http://gw")), 12);
    assert_eq!(c.worker_id, "w-12");
    assert_eq!(c.poll_url(), "http://gw/poll");
}

#[test]
fn tool_worker_task_handling() {
    assert!(task_details(PollApiResponse { has_task: false, task: None }).unwrap().is_none());
    let t = task_details(PollApiResponse {
        has_task: true,
        task: Some(InnerTask { run_id: s("r"), state_name: s("A"), resource: s("  shell \n"), task_payload: None }),
    })
    .unwrap()
    .unwrap();
    assert_eq!(t.tool_type, "shell");
    assert_eq!(t.input, "{}");
    let e = task_details(PollApiResponse {
        has_task: true,
        task: Some(InnerTask { run_id: s("r"), state_name: s("A"), resource: s("   "), task_payload: Some(s("1")) }),
    });
    assert_eq!(e.unwrap_err(), "Received task with empty resource/tool_type");
    let d = || TaskDetails { run_id: s("r"), state_name: s("A"), tool_type: s("http"), input: s("{}") };
    let ok = task_result(d(), Ok(s("[1]")));
    assert_eq!((ok.status.as_str(), ok.result.as_str()), ("SUCCEEDED", "[1]"));
    let bad = task_result(d(), Err(s("no route")));
    assert_eq!((bad.status.as_str(), bad.result.as_str()), ("FAILED", "{\"error\":\"no route\"}"));
}

#[test]
fn frb_requests() {
    let ok = exec_start_request(FrbStartExecutionRequest {
        mode: s("DEFERRED"),
        template_id: None,
        dsl_json: Some(s(" { \"a\" : 1 } ")),
        init_ctx_json: None,
    })
    .unwrap();
    assert_eq!(ok.dsl.as_deref(), Some("{\"a\":1}"));
    assert!(ok.init_ctx.is_none());
    assert_eq!(ok.mode, "DEFERRED");
    let e = exec_start_request(FrbStartExecutionRequest {
        mode: s("INLINE"),
        template_id: None,
        dsl_json: Some(s("{")),
        init_ctx_json: Some(s("{")),
    });
    assert!(e.unwrap_err().starts_with("invalid dsl_json: "));
    let e = exec_start_request(FrbStartExecutionRequest {
        mode: s("INLINE"),
        template_id: None,
        dsl_json: None,
        init_ctx_json: Some(s("nope")),
    });
    assert!(e.unwrap_err().starts_with("invalid init_ctx_json: "));
    assert_eq!(update_result(&FrbExecUpdateRequest { status: s("x"), result_json: None }).unwrap(), None);
    assert!(update_result(&FrbExecUpdateRequest { status: s("x"), result_json: Some(s("[")) }).unwrap_err().starts_with("invalid result_json: "));
    let r = execution_result(ExecDto {
        run_id: s("r"),
        mode: s("INLINE"),
        status: s("COMPLETED"),
        result: Some(s("1")),
        started_at: s("T"),
        finished_at: None,
    });
    assert_eq!(r.result_json.as_deref(), Some("1"));
    assert_eq!(r.started_at, "T");
}

#[test]
fn worker_report_now() {
    let p = stepflow::routes::worker::report_patch(TaskStatus::FAILED, &s("\"e\""));
    assert_eq!(p.status.as_deref(), Some("failed"));
    assert!(matches!(&p.failed_at, Some(Some(_))));
    assert_eq!(p.error_message, Some(Some(s("\"e\""))));
}

#[test]
fn match_poll_waits_ten_seconds_unless_asked() {
    assert_eq!(match_poll_timeout(None), 10);
    assert_eq!(match_poll_timeout(Some(3)), 3);
    assert_eq!(match_poll_timeout(Some(0)), 0);
}

#[test]
fn engine_table_takes_and_puts_back() {
    let mut t: EngineTable<u32> = EngineTable::new();
    t.insert(s("a"), 1);
    t.insert(s("b"), 2);
    t.insert(s("a"), 3);
    assert!(t.contains(&s("a")) && t.contains(&s("b")) && !t.contains(&s("c")));
    assert_eq!(t.take(&s("a")), Some(3));
    assert!(!t.contains(&s("a")));
    assert_eq!(t.take(&s("a")), None);
    assert_eq!(t.take(&s("b")), Some(2));
}

#[test]
fn runner_resumes_a_live_run_once() {
    let mut t: EngineTable<u32> = EngineTable::new();
    t.insert(s("r"), 7);
    let finished = EngineEvent::TaskFinished { run_id: s("r"), state_name: s("A"), output: s("1") };
    let (run, signal, engine) = runner_take(&mut t, finished).unwrap();
    assert_eq!((run.as_str(), engine), ("r", 7));
    assert!(matches!(signal, ExecutionSignal::TaskCompleted { run_id, state_name, output }
        if run_id == "r" && state_name == "A" && output == "1"));
    assert!(!t.contains(&s("r")));
    settle_engine(&mut t, s("r"), 8, DriveOutcome::Advanced { finished: false });
    assert_eq!(t.take(&s("r")), Some(8));
    settle_engine(&mut t, s("r"), 9, DriveOutcome::Advanced { finished: true });
    assert!(!t.contains(&s("r")));
    settle_engine(&mut t, s("r"), 10, DriveOutcome::HandleFailed);
    assert!(t.contains(&s("r")));
}

#[test]
fn runner_ignores_runs_without_engine() {
    let mut t: EngineTable<u32> = EngineTable::new();
    t.insert(s("other"), 1);
    let finished = EngineEvent::TaskFinished { run_id: s("r"), state_name: s("A"), output: s("1") };
    assert!(runner_take(&mut t, finished).is_none());
    assert!(runner_take(&mut t, EngineEvent::WorkflowStarted { run_id: s("other") }).is_none());
    assert!(t.contains(&s("other")));
    assert_eq!(t.take(&s("other")), Some(1));
}

#[test]
fn report_for_run_without_engine_is_not_found() {
    let mut t: EngineTable<u32> = EngineTable::new();
    assert!(matches!(report_take(&mut t, &s("r")), Err(AppError::NotFound)));
    t.insert(s("r"), 4);
    assert!(matches!(report_take(&mut t, &s("r")), Ok(4)));
    assert!(!t.contains(&s("r")));
}
