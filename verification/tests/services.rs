use stepflow::dto::activity_task::{default_limit, ActivityTaskDto, FailRequest, ListQuery};
use stepflow::dto::execution::{page_bounds, ExecStart};
use stepflow::dto::queue_task::UpdateQueueTaskDto;
use stepflow::dto::template::{TemplateDto, TemplateUpsert};
use stepflow::dto::timer::{CreateTimerDto, UpdateTimerDto};
use stepflow::dto::workflow_event::{self as ev, RecordEventRequest};
use stepflow::entities::{StoredQueueTask, StoredTimer, WorkflowTemplate};
use stepflow::error::{found, operation_failed, AppError};
use stepflow::event::WorkflowMode;
use stepflow::service::activity_task::{
    complete_task_update, fail_task_update, heartbeat_task_update, listed_status,
    start_task_update, tasks_of_run,
};
use stepflow::service::execution::{
    deferred_outcome, dsl_parse_error, dsl_source, engine_init_ctx, exec_dto_from_row, inline_document,
    inline_outcome, mode_from_str, start_record, status_update, template_document, DslSource,
};
use stepflow::service::match_stats::{db_stat_page, db_stat_statuses, db_stats_from};
use stepflow::service::queue_task::{task_document, to_dto, to_stored_update};
use stepflow::service::template::{created_template, list_size, require_existing, template_changes, template_dto_from_row};
use stepflow::service::timer;
use stepflow::service::{activity_task as at, execution as ex, template as tp, workflow_event as we};
use stepflow::service::workflow_event::{all_runs_key, event_dto, event_from_request};

fn s(x: &str) -> String {
    x.to_string()
}

fn task(status: &str, run: &str) -> ActivityTaskDto {
    ActivityTaskDto {
        task_token: s("tok"),
        run_id: s(run),
        activity_type: s("http"),
        status: s(status),
        input: None,
        result: None,
        error: None,
        error_details: None,
        attempt: 0,
        max_attempts: 3,
        scheduled_at: s("T0"),
        started_at: None,
        completed_at: None,
        heartbeat_at: None,
    }
}

#[test]
fn default_limits_and_pages() {
    assert_eq!(default_limit(), 100);
    assert_eq!(ev::default_limit(), 100);
    assert_eq!(ListQuery::from_params(None, None), ListQuery { limit: 100, offset: 0 });
    assert_eq!(ListQuery::from_params(Some(5), Some(10)), ListQuery { limit: 5, offset: 10 });
    assert_eq!(ev::ListQuery::from_params(None, Some(3)), ev::ListQuery { limit: 100, offset: 3 });
    assert_eq!(page_bounds(None, None), (20, 0));
    assert_eq!(page_bounds(Some(7), Some(2)), (7, 2));
}

#[test]
fn activity_start_only_from_scheduled() {
    let u = start_task_update(&task("SCHEDULED", "r"), "tok", "T1").unwrap();
    assert_eq!(u.status.as_deref(), Some("RUNNING"));
    assert_eq!(u.started_at, Some(Some(s("T1"))));
    assert!(u.completed_at.is_none() && u.heartbeat_at.is_none() && u.result.is_none());
    match start_task_update(&task("RUNNING", "r"), "tok", "T1") {
        Err(AppError::BadRequest(m)) => assert_eq!(m, "Activity task tok is not in scheduled state: RUNNING"),
        other => panic!("unexpected {:?}", other),
    }
}

#[test]
fn activity_complete_fail_heartbeat_only_when_running() {
    let u = complete_task_update(&task("RUNNING", "r"), "tok", s("{\"ok\":1}"), "T2").unwrap();
    assert_eq!(u.status.as_deref(), Some("COMPLETED"));
    assert_eq!(u.result, Some(Some(s("{\"ok\":1}"))));
    assert_eq!(u.completed_at, Some(Some(s("T2"))));
    let u = fail_task_update(&task("RUNNING", "r"), "tok", FailRequest { reason: s("timeout"), details: Some(s("d")) }, "T3").unwrap();
    assert_eq!(u.status.as_deref(), Some("FAILED"));
    assert_eq!(u.error, Some(Some(s("timeout"))));
    assert_eq!(u.error_details, Some(Some(s("d"))));
    let u = heartbeat_task_update(&task("RUNNING", "r"), "tok", "T4").unwrap();
    assert!(u.status.is_none());
    assert_eq!(u.heartbeat_at, Some(Some(s("T4"))));
    for st in ["SCHEDULED", "COMPLETED", "FAILED"] {
        match complete_task_update(&task(st, "r"), "tok", s("1"), "T") {
            Err(AppError::BadRequest(m)) => assert_eq!(m, format!("Activity task tok is not in running state: {}", st)),
            other => panic!("unexpected {:?}", other),
        }
        assert!(fail_task_update(&task(st, "r"), "tok", FailRequest { reason: s("x"), details: None }, "T").is_err());
        assert!(heartbeat_task_update(&task(st, "r"), "tok", "T").is_err());
    }
    assert!(start_task_update(&task("COMPLETED", "r"), "tok", "T").is_err());
}

#[test]
fn activity_lists() {
    assert_eq!(listed_status(), "SCHEDULED");
    let tasks = vec![task("RUNNING", "a"), task("RUNNING", "b"), task("SCHEDULED", "a"), task("COMPLETED", "a")];
    let mine = tasks_of_run(tasks, "a");
    assert_eq!(mine.len(), 3);
    assert_eq!(mine.iter().map(|t| t.status.as_str()).collect::<Vec<_>>(), vec!["RUNNING", "SCHEDULED", "COMPLETED"]);
    assert!(mine.iter().all(|t| t.run_id == "a"));
}

#[test]
fn errors() {
    assert!(matches!(AppError::from_storage(s("db down")), AppError::Internal(m) if m == "db down"));
    assert!(matches!(operation_failed("get_timer", "x"), AppError::Anyhow(m) if m == "get_timer failed: x"));
    assert!(matches!(found::<u8>(None), Err(AppError::NotFound)));
    assert!(matches!(found(Some(3u8)), Ok(3)));
}

#[test]
fn execution_modes() {
    assert_eq!(mode_from_str("INLINE").unwrap(), WorkflowMode::Inline);
    assert_eq!(mode_from_str("DEFERRED").unwrap(), WorkflowMode::Deferred);
    match mode_from_str("inline") {
        Err(AppError::BadRequest(m)) => assert_eq!(m, "mode must be INLINE or DEFERRED"),
        other => panic!("unexpected {:?}", other),
    }
}

fn start(template: Option<&str>, dsl: Option<&str>, ctx: Option<&str>) -> ExecStart {
    ExecStart { mode: s("INLINE"), template_id: template.map(s), dsl: dsl.map(s), init_ctx: ctx.map(s) }
}

#[test]
fn execution_definition_sources() {
    assert!(matches!(dsl_source(&start(Some("t1"), Some("{}"), None)), Ok(DslSource::Template(t)) if t == "t1"));
    assert!(matches!(dsl_source(&start(None, Some("{}"), None)), Ok(DslSource::Inline(d)) if d == "{}"));
    assert!(matches!(dsl_source(&start(None, None, None)), Err(AppError::BadRequest(m)) if m == "dsl or template_id required"));
}

#[test]
fn execution_documents() {
    let d = inline_document(r#"{"states":{}}"#).unwrap();
    assert_eq!(d.text, r#"{"states":{}}"#);
    assert!(!d.from_string);
    let d = inline_document(r#""{\"states\":{}}""#).unwrap();
    assert_eq!(d.text, r#"{"states":{}}"#);
    assert!(d.from_string);
    assert!(matches!(inline_document("3"), Err(AppError::BadRequest(m)) if m == "DSL must be a JSON object or JSON string"));
    assert!(matches!(dsl_parse_error(&d, "bad"), AppError::BadRequest(m) if m == "invalid DSL string: bad"));
    assert!(matches!(template_document(None), Err(AppError::NotFound)));
    let tpl = |def: &str| WorkflowTemplate {
        template_id: s("t"),
        name: s("n"),
        description: None,
        dsl_definition: s(def),
        version: 1,
        created_at: s("T"),
        updated_at: s("T"),
    };
    assert_eq!(template_document(Some(tpl(r#"{"a":1}"#))).unwrap().text, r#"{"a":1}"#);
    match template_document(Some(tpl("{not json"))) {
        Err(AppError::Anyhow(m)) => assert!(m.starts_with("解析模板 DSL 失败: ")),
        other => panic!("unexpected {:?}", other),
    }
}

#[test]
fn execution_outcomes_and_records() {
    assert_eq!(engine_init_ctx(&None), "{}");
    assert_eq!(engine_init_ctx(&Some(s("{\"a\":1}"))), "{\"a\":1}");
    let o = inline_outcome(Ok(s("42")), "T9").unwrap();
    assert_eq!((o.status.as_str(), o.result.as_deref(), o.finished_at.as_deref()), ("COMPLETED", Some("42"), Some("T9")));
    assert!(matches!(inline_outcome(Err(s("x")), "T"), Err(AppError::BadRequest(m)) if m == "执行工作流失败: x"));
    let d = deferred_outcome();
    assert_eq!(d.status, "RUNNING");
    let now = s("T5");
    let (row, dto) = start_record(start(Some("t1"), None, None), s("run-1"), inline_outcome(Ok(s("7")), "T6").unwrap(), &now);
    assert_eq!(row.workflow_id.as_deref(), Some("wf-run-1"));
    assert_eq!(row.shard_id, 0);
    assert_eq!(row.template_id.as_deref(), Some("t1"));
    assert_eq!(row.current_state_name.as_deref(), Some("initial"));
    assert_eq!(row.input.as_deref(), Some("null"));
    assert_eq!(row.status, "COMPLETED");
    assert_eq!(row.close_time.as_deref(), Some("T6"));
    assert_eq!(dto.run_id, "run-1");
    assert_eq!(dto.started_at, "T5");
    let read = exec_dto_from_row(row);
    assert_eq!((read.run_id, read.mode, read.status, read.result), (dto.run_id, dto.mode, dto.status, dto.result));
    let u = status_update(s("CANCELLED"), Some(s("1")));
    assert_eq!(u.status.as_deref(), Some("CANCELLED"));
    assert_eq!(u.result_version, Some(2));
    assert_eq!(u.result, Some(Some(s("1"))));
}

fn stored_queue_task(priority: Option<i64>) -> StoredQueueTask {
    StoredQueueTask {
        task_id: s("q1"),
        run_id: s("r"),
        state_name: s("A"),
        resource: s("http"),
        task_payload: Some(s("\"{}\"")),
        status: s("pending"),
        attempts: 1,
        max_attempts: 3,
        priority,
        timeout_seconds: Some(30),
        error_message: None,
        last_error_at: None,
        next_retry_at: None,
        queued_at: s("T"),
        processing_at: None,
        completed_at: None,
        failed_at: None,
    }
}

#[test]
fn queue_tasks() {
    let d = to_dto(stored_queue_task(Some(5)));
    assert_eq!(d.priority, Some(5));
    assert_eq!(d.timeout_seconds, Some(30));
    assert_eq!(to_dto(stored_queue_task(Some(300))).priority, Some(44));
    assert_eq!(to_dto(stored_queue_task(Some(-1))).priority, Some(255));
    let mut u = UpdateQueueTaskDto::unchanged();
    u.priority = Some(200);
    u.status = Some(s("failed"));
    let st = to_stored_update(u);
    assert_eq!(st.priority, Some(200));
    assert_eq!(st.status.as_deref(), Some("failed"));
    assert!(task_document(&d).unwrap().from_string);
    let mut no_payload = to_dto(stored_queue_task(None));
    no_payload.task_payload = None;
    assert!(matches!(task_document(&no_payload), Err(AppError::BadRequest(m)) if m == "task payload is empty"));
    no_payload.task_payload = Some(s("[1]"));
    assert!(matches!(task_document(&no_payload), Err(AppError::BadRequest(m)) if m == "DSL must be a JSON object or string"));
}

#[test]
fn timers() {
    let now = s("T7");
    let req = CreateTimerDto {
        timer_id: s("tm"),
        run_id: s("r"),
        shard_id: 2,
        fire_at: s("2030-01-01T00:00:00+00:00"),
        status: s("scheduled"),
        version: 1,
        state_name: Some(s("Wait")),
        payload: None,
    };
    let stored = timer::new_timer_record(req, &now);
    assert_eq!(stored.created_at, "T7");
    let shown = timer::to_dto(stored);
    assert_eq!(shown.timer_id, "tm");
    assert_eq!(shown.fire_at, "2030-01-01T00:00:00+00:00");
    assert_eq!(shown.updated_at, "T7");
    let u = timer::to_stored_update(UpdateTimerDto { fire_at: None, status: Some(s("fired")), version: Some(2), payload: Some(None) });
    assert_eq!(u.status.as_deref(), Some("fired"));
    assert_eq!(u.payload, Some(None));
    let _ = StoredTimer {
        timer_id: s("x"),
        run_id: s("r"),
        shard_id: 0,
        fire_at: s("T"),
        status: s("s"),
        version: 0,
        state_name: None,
        payload: None,
        created_at: s("T"),
        updated_at: s("T"),
    };
}

#[test]
fn templates() {
    let now = s("T8");
    let (row, dto) = created_template(s("id1"), TemplateUpsert { name: s("flow"), dsl: s("{\"a\":1}") }, &now);
    assert_eq!(row.template_id, "id1");
    assert_eq!(row.dsl_definition, "{\"a\":1}");
    assert_eq!(row.version, 1);
    assert!(row.description.is_none());
    assert_eq!(dto.dsl, "{\"a\":1}");
    let shown = template_dto_from_row(row);
    assert_eq!((shown.id.as_str(), shown.name.as_str(), shown.dsl.as_str()), ("id1", "flow", "{\"a\":1}"));
    let changes = template_changes(TemplateUpsert { name: s("n2"), dsl: s("[]") });
    assert_eq!(changes.name.as_deref(), Some("n2"));
    assert_eq!(changes.version, Some(1));
    assert!(matches!(require_existing(false), Err(AppError::NotFound)));
    assert!(require_existing(true).is_ok());
    assert_eq!(list_size(), 100);
    let broken = WorkflowTemplate {
        template_id: s("b"),
        name: s("b"),
        description: None,
        dsl_definition: s("{bad"),
        version: 1,
        created_at: s("T"),
        updated_at: s("T"),
    };
    assert_eq!(template_dto_from_row(broken).dsl, "null");
    let fresh = TemplateDto::from_upsert(TemplateUpsert { name: s("x"), dsl: s("{}") });
    assert_eq!(fresh.id.len(), 36);
    assert_eq!(fresh.name, "x");
}

#[test]
fn workflow_events() {
    let now = s("T9");
    let req = RecordEventRequest {
        run_id: s("r"),
        shard_id: 1,
        event_id: 4,
        event_type: s("Custom"),
        state_id: None,
        state_type: None,
        trace_id: Some(s("tr")),
        parent_event_id: Some(3),
        context_version: None,
        attributes: Some(s("say \"hi\"")),
        archived: false,
    };
    let stored = event_from_request(req, &now);
    assert_eq!(stored.attributes.as_deref(), Some("\"say \\\"hi\\\"\""));
    assert_eq!(stored.attr_version, 1);
    assert_eq!(stored.timestamp, "T9");
    let dto = event_dto(stored);
    assert_eq!(dto.event_id, 4);
    assert_eq!(dto.trace_id.as_deref(), Some("tr"));
    assert_eq!(all_runs_key(), "");
}

#[test]
fn match_stats() {
    assert_eq!(db_stat_statuses(), vec![s("pending"), s("processing"), s("completed"), s("failed"), s("retrying")]);
    assert_eq!(db_stat_page(), 100_000);
    let stats = db_stats_from(&vec![Ok(3), Err(s("x")), Ok(0), Ok(7), Ok(1)]);
    assert_eq!((stats.pending, stats.processing, stats.completed, stats.failed, stats.retrying), (3, 0, 0, 7, 1));
}

#[test]
fn queue_priority_reads_back_as_written() {
    for p in [0u8, 1, 127, 200, 255] {
        let mut u = UpdateQueueTaskDto::unchanged();
        u.priority = Some(p);
        let stored = to_stored_update(u).priority;
        assert_eq!(to_dto(stored_queue_task(stored)).priority, Some(p));
    }
}

#[test]
fn clock_reading_entry_points() {
    let u = at::start_task(&task("SCHEDULED", "r"), "tok").unwrap();
    assert_eq!(u.status.as_deref(), Some("RUNNING"));
    assert!(matches!(&u.started_at, Some(Some(t)) if chrono::DateTime::parse_from_rfc3339(t).is_ok()));
    assert!(at::start_task(&task("RUNNING", "r"), "tok").is_err());
    let u = at::complete_task(&task("RUNNING", "r"), "tok", s("1")).unwrap();
    assert!(matches!(&u.completed_at, Some(Some(_))));
    let u = at::fail_task(&task("RUNNING", "r"), "tok", FailRequest { reason: s("x"), details: None }).unwrap();
    assert_eq!(u.status.as_deref(), Some("FAILED"));
    let u = at::heartbeat_task(&task("RUNNING", "r"), "tok").unwrap();
    assert!(matches!(&u.heartbeat_at, Some(Some(_))));
    let o = ex::inline_run_outcome(Ok(s("3"))).unwrap();
    assert_eq!(o.status, "COMPLETED");
    assert!(o.finished_at.is_some());
    let (row, dto) = ex::record_start(start(None, Some("{}"), Some("{\"k\":1}")), ex::new_run_id(), ex::deferred_outcome());
    assert_eq!(row.status, "RUNNING");
    assert_eq!(row.input.as_deref(), Some("{\"k\":1}"));
    assert_eq!(dto.started_at, row.start_time);
    let (row, dto) = tp::create_template(TemplateUpsert { name: s("n"), dsl: s("{}") });
    assert_eq!(row.template_id.len(), 36);
    assert_eq!(dto.id, row.template_id);
    assert_eq!(row.created_at, row.updated_at);
    let t = timer::create_timer(CreateTimerDto {
        timer_id: s("t"),
        run_id: s("r"),
        shard_id: 0,
        fire_at: s("F"),
        status: s("s"),
        version: 1,
        state_name: None,
        payload: None,
    });
    assert_eq!(t.created_at, t.updated_at);
    let e = we::record_event(RecordEventRequest {
        run_id: s("r"),
        shard_id: 0,
        event_id: 1,
        event_type: s("X"),
        state_id: None,
        state_type: None,
        trace_id: None,
        parent_event_id: None,
        context_version: None,
        attributes: None,
        archived: true,
    });
    assert!(e.archived && e.attributes.is_none());
}
