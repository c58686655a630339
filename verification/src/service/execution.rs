//! Starting, reading and updating workflow runs. A start request names
//! its workflow definition (a template or an inline document) and a mode;
//! an inline run is finished within the request, a deferred one is left
//! running. The run is recorded in the store either way.
use vstd::prelude::*;
use crate::dto::execution::{ExecDto, ExecStart};
use crate::entities::{StoredWorkflowExecution, UpdateStoredWorkflowExecution, WorkflowTemplate};
use crate::error::AppError;
use crate::event::WorkflowMode;
use crate::text::{clone_opt, opt_view};
use crate::json::{json_shape, JsonShape, JsonShapeView, json_shape_of, empty_object, empty_object_text, null_value, null_text};

use crate::ids::{is_uuid_v4_text, new_uuid};
use crate::time::{is_instant_text, utc_now};
verus! {

/// The mode that a mode name selects: exactly `INLINE` and `DEFERRED`.
pub open spec fn mode_named(s: Seq<char>) -> Option<WorkflowMode> {
    if s == "INLINE"@ {
        Some(WorkflowMode::Inline)
    } else if s == "DEFERRED"@ {
        Some(WorkflowMode::Deferred)
    } else {
        None
    }
}

/// Reads a mode name; any other name is refused.
pub fn mode_from_str(s: &str) -> (r: Result<WorkflowMode, AppError>)
    ensures
        match mode_named(s@) {
            Some(m) => r == Ok::<WorkflowMode, AppError>(m),
            None => r matches Err(AppError::BadRequest(msg)) && msg@ == "mode must be INLINE or DEFERRED"@,
        },
{
    let name = String::from_str(s);
    if name == String::from_str("INLINE") {
        Ok(WorkflowMode::Inline)
    } else if name == String::from_str("DEFERRED") {
        Ok(WorkflowMode::Deferred)
    } else {
        Err(AppError::BadRequest(String::from_str("mode must be INLINE or DEFERRED")))
    }
}

/// Where a start request takes its workflow definition from.
#[derive(Debug, Clone)]
pub enum DslSource {
    /// The stored template with this id.
    Template(String),
    /// The inline document (JSON text).
    Inline(String),
}

/// The definition a start request names: its template if it names one,
/// else its inline document; a request with neither is refused.
pub fn dsl_source(req: &ExecStart) -> (r: Result<DslSource, AppError>)
    ensures
        match (req.template_id, req.dsl) {
            (Some(t), _) => r matches Ok(DslSource::Template(id)) && id@ == t@,
            (None, Some(d)) => r matches Ok(DslSource::Inline(doc)) && doc@ == d@,
            (None, None) => r matches Err(AppError::BadRequest(m)) && m@ == "dsl or template_id required"@,
        },
{
    match &req.template_id {
        Some(t) => Ok(DslSource::Template(t.clone())),
        None => match &req.dsl {
            Some(d) => Ok(DslSource::Inline(d.clone())),
            None => Err(AppError::BadRequest(String::from_str("dsl or template_id required"))),
        },
    }
}

/// The context with which a failure to read a template's definition is
/// reported.
pub open spec fn template_dsl_context() -> Seq<char> {
    "解析模板 DSL 失败"@
}

/// A workflow definition ready to be read as a DSL document: the JSON
/// text to read, and whether it came wrapped in a JSON string.
#[derive(Debug, Clone)]
pub struct DslDocument {
    pub text: String,
    pub from_string: bool,
}

/// What a definition value says: an object is the document itself, a
/// string holds the document's text, anything else is refused.
pub open spec fn dsl_document_of(shape: JsonShapeView, text: Seq<char>, from_string: bool) -> bool {
    match shape {
        JsonShapeView::Object(t) => text == t && !from_string,
        JsonShapeView::Text(s) => text == s && from_string,
        _ => false,
    }
}

fn document_from_shape(shape: JsonShape) -> (r: Result<DslDocument, AppError>)
    requires
        !(shape is Invalid),
    ensures
        match shape@ {
            JsonShapeView::Object(_) | JsonShapeView::Text(_) => r matches Ok(d)
                && dsl_document_of(shape@, d.text@, d.from_string),
            _ => r matches Err(AppError::BadRequest(m))
                && m@ == "DSL must be a JSON object or JSON string"@,
        },
{
    match shape {
        JsonShape::Object(t) => Ok(DslDocument { text: t, from_string: false }),
        JsonShape::Text(s) => Ok(DslDocument { text: s, from_string: true }),
        _ => Err(AppError::BadRequest(String::from_str("DSL must be a JSON object or JSON string"))),
    }
}

/// The document of the template `found` that a start request named: a
/// missing template is `NotFound`; a definition that is not JSON is
/// reported with [`template_dsl_context`]; otherwise as for an inline
/// document.
pub fn template_document(found: Option<WorkflowTemplate>) -> (r: Result<DslDocument, AppError>)
    ensures
        match found {
            None => r matches Err(AppError::NotFound),
            Some(t) => match json_shape_of(t.dsl_definition@) {
                JsonShapeView::Invalid(e) => r matches Err(AppError::Anyhow(m))
                    && m@ == template_dsl_context() + ": "@ + e,
                JsonShapeView::Other(_) => r matches Err(AppError::BadRequest(m))
                    && m@ == "DSL must be a JSON object or JSON string"@,
                shape => r matches Ok(d) && dsl_document_of(shape, d.text@, d.from_string),
            },
        },
{
    match found {
        None => Err(AppError::NotFound),
        Some(t) => {
            let shape = json_shape(t.dsl_definition.as_str());
            match shape {
                JsonShape::Invalid(e) => {
                    let mut m = String::from_str("解析模板 DSL 失败");
                    m.append(": ");
                    m.append(e.as_str());
                    Err(AppError::Anyhow(m))
                },
                other => document_from_shape(other),
            }
        },
    }
}

/// The document of an inline definition (JSON text): objects and strings
/// as for a template; text that is not JSON is refused with the parse
/// error.
pub fn inline_document(dsl: &str) -> (r: Result<DslDocument, AppError>)
    ensures
        match json_shape_of(dsl@) {
            JsonShapeView::Invalid(e) => r matches Err(AppError::BadRequest(m)) && m@ == "invalid DSL: "@ + e,
            JsonShapeView::Other(_) => r matches Err(AppError::BadRequest(m))
                && m@ == "DSL must be a JSON object or JSON string"@,
            shape => r matches Ok(d) && dsl_document_of(shape, d.text@, d.from_string),
        },
{
    let shape = json_shape(dsl);
    match shape {
        JsonShape::Invalid(e) => {
            let mut m = String::from_str("invalid DSL: ");
            m.append(e.as_str());
            Err(AppError::BadRequest(m))
        },
        other => document_from_shape(other),
    }
}

/// The refusal of a document that does not read as a workflow
/// definition, with the reader's error `err`.
pub fn dsl_parse_error(doc: &DslDocument, err: &str) -> (r: AppError)
    ensures
        r matches AppError::BadRequest(m) && m@ == (if doc.from_string {
            "invalid DSL string: "@
        } else {
            "invalid DSL: "@
        }) + err@,
{
    let mut m = if doc.from_string {
        String::from_str("invalid DSL string: ")
    } else {
        String::from_str("invalid DSL: ")
    };
    m.append(err);
    AppError::BadRequest(m)
}

/// The context the engine starts from: the request's, or the empty object.
pub fn engine_init_ctx(init_ctx: &Option<String>) -> (r: String)
    ensures
        match init_ctx {
            Some(c) => r@ == c@,
            None => r@ == empty_object_text(),
        },
{
    match init_ctx {
        Some(c) => c.clone(),
        None => empty_object(),
    }
}

/// How a run ended within its start request: its status, its result
/// (JSON text) and when it finished.
#[derive(Debug, Clone)]
pub struct RunOutcome {
    pub status: String,
    pub result: Option<String>,
    pub finished_at: Option<String>,
}

/// The outcome of an inline run that produced `run` (its result, or the
/// engine's error) and finished at `now`: completed with its result, or
/// refused with the engine's error.
pub fn inline_outcome(run: Result<String, String>, now: &str) -> (r: Result<RunOutcome, AppError>)
    ensures
        match run {
            Ok(res) => r matches Ok(o) && o.status@ == "COMPLETED"@ && o.result == Some(res)
                && (o.finished_at matches Some(t) && t@ == now@),
            Err(e) => r matches Err(AppError::BadRequest(m)) && m@ == "执行工作流失败: "@ + e@,
        },
{
    match run {
        Ok(res) => Ok(
            RunOutcome {
                status: String::from_str("COMPLETED"),
                result: Some(res),
                finished_at: Some(String::from_str(now)),
            },
        ),
        Err(e) => {
            let mut m = String::from_str("执行工作流失败: ");
            m.append(e.as_str());
            Err(AppError::BadRequest(m))
        },
    }
}

/// The outcome of a deferred run: still running, with no result yet.
pub fn deferred_outcome() -> (r: RunOutcome)
    ensures
        r.status@ == "RUNNING"@,
        r.result is None,
        r.finished_at is None,
{
    RunOutcome { status: String::from_str("RUNNING"), result: None, finished_at: None }
}

/// The run record of a started run.
pub open spec fn is_start_record(
    row: StoredWorkflowExecution,
    req: ExecStart,
    run_id: Seq<char>,
    outcome: RunOutcome,
    now: Seq<char>,
) -> bool {
    &&& row.run_id@ == run_id
    &&& row.workflow_id matches Some(w) && w@ == "wf-"@ + run_id
    &&& row.shard_id == 0
    &&& row.template_id == req.template_id
    &&& row.mode == req.mode
    &&& row.current_state_name matches Some(c) && c@ == "initial"@
    &&& row.status == outcome.status
    &&& row.workflow_type@ == "default"@
    &&& row.input matches Some(i) && i@ == match req.init_ctx {
        Some(c) => c@,
        None => null_text(),
    }
    &&& row.input_version == 1
    &&& row.result == outcome.result
    &&& row.result_version == 1
    &&& row.start_time@ == now
    &&& row.close_time == outcome.finished_at
    &&& row.current_event_id == 0
    &&& row.memo is None
    &&& row.search_attrs is None
    &&& row.context_snapshot is None
    &&& row.version == 1
}

/// The record of run `run_id` started by `req` with `outcome` at `now`,
/// and the answer to the request.
pub fn start_record(req: ExecStart, run_id: String, outcome: RunOutcome, now: &String) -> (r: (StoredWorkflowExecution, ExecDto))
    ensures
        is_start_record(r.0, req, run_id@, outcome, now@),
        r.1.run_id@ == run_id@,
        r.1.mode@ == req.mode@,
        r.1.status@ == outcome.status@,
        opt_view(r.1.result) == opt_view(outcome.result),
        r.1.started_at@ == now@,
        opt_view(r.1.finished_at) == opt_view(outcome.finished_at),
{
    let workflow_id = String::from_str("wf-").concat(run_id.as_str());
    let input = match &req.init_ctx {
        Some(c) => c.clone(),
        None => null_value(),
    };
    let row = StoredWorkflowExecution {
        run_id: run_id.clone(),
        workflow_id: Some(workflow_id),
        shard_id: 0,
        template_id: req.template_id,
        mode: req.mode,
        current_state_name: Some(String::from_str("initial")),
        workflow_type: String::from_str("default"),
        status: outcome.status,
        input: Some(input),
        input_version: 1,
        result: outcome.result,
        result_version: 1,
        start_time: now.clone(),
        close_time: outcome.finished_at,
        current_event_id: 0,
        memo: None,
        search_attrs: None,
        context_snapshot: None,
        version: 1,
    };
    let dto = ExecDto {
        run_id,
        mode: row.mode.clone(),
        status: row.status.clone(),
        result: clone_opt(&row.result),
        started_at: now.clone(),
        finished_at: clone_opt(&row.close_time),
    };
    (row, dto)
}

/// A stored run as the routes return it.
pub fn exec_dto_from_row(row: StoredWorkflowExecution) -> (r: ExecDto)
    ensures
        r.run_id == row.run_id,
        r.mode == row.mode,
        r.status == row.status,
        r.result == row.result,
        r.started_at == row.start_time,
        r.finished_at == row.close_time,
{
    ExecDto {
        run_id: row.run_id,
        mode: row.mode,
        status: row.status,
        result: row.result,
        started_at: row.start_time,
        finished_at: row.close_time,
    }
}

/// The update that sets a run's status and result, marking the result
/// as rewritten (result version 2).
pub fn status_update(status: String, result: Option<String>) -> (r: UpdateStoredWorkflowExecution)
    ensures
        r.touches_only_outcome(),
        r.status == Some(status),
        r.result == Some(result),
        r.result_version == Some(2i64),
        r.close_time is None,
{
    UpdateStoredWorkflowExecution {
        workflow_id: None,
        shard_id: None,
        template_id: None,
        mode: None,
        current_state_name: None,
        workflow_type: None,
        status: Some(status),
        input: None,
        input_version: None,
        result: Some(result),
        result_version: Some(2),
        start_time: None,
        close_time: None,
        current_event_id: None,
        memo: None,
        search_attrs: None,
        context_snapshot: None,
        version: None,
    }
}


/// Reading a run right after it started gives back what the start
/// answered: the same run, mode, status, result and instants.
pub proof fn lemma_read_after_start(
    req: ExecStart,
    run_id: String,
    outcome: RunOutcome,
    now: String,
    started: (StoredWorkflowExecution, ExecDto),
    read: ExecDto,
)
    requires
        call_ensures(start_record, (req, run_id, outcome, &now), started),
        call_ensures(exec_dto_from_row, (started.0,), read),
    ensures
        read.run_id@ == started.1.run_id@,
        read.mode@ == started.1.mode@,
        read.status@ == started.1.status@,
        opt_view(read.result) == opt_view(started.1.result),
        read.started_at@ == started.1.started_at@,
        opt_view(read.finished_at) == opt_view(started.1.finished_at),
{
}


/// A fresh run id: a random version 4 UUID.
pub fn new_run_id() -> (r: String)
    ensures
        is_uuid_v4_text(r@),
{
    new_uuid()
}

/// The outcome of an inline run that produced `run`, finished now: as
/// [`inline_outcome`] at the current instant.
pub fn inline_run_outcome(run: Result<String, String>) -> (r: Result<RunOutcome, AppError>)
    ensures
        match run {
            Ok(res) => r matches Ok(o) && o.status@ == "COMPLETED"@ && o.result == Some(res)
                && (o.finished_at matches Some(t) && is_instant_text(t@)),
            Err(e) => r matches Err(AppError::BadRequest(m)) && m@ == "执行工作流失败: "@ + e@,
        },
{
    let now = utc_now();
    inline_outcome(run, now.as_str())
}

/// The record of run `run_id` started by `req` with `outcome`, and the
/// answer to the request, as [`start_record`] at the current instant.
pub fn record_start(req: ExecStart, run_id: String, outcome: RunOutcome) -> (r: (StoredWorkflowExecution, ExecDto))
    ensures
        is_start_record(r.0, req, run_id@, outcome, r.0.start_time@),
        is_instant_text(r.0.start_time@),
        r.1.run_id@ == run_id@,
        r.1.mode@ == req.mode@,
        r.1.status@ == outcome.status@,
        opt_view(r.1.result) == opt_view(outcome.result),
        r.1.started_at@ == r.0.start_time@,
        opt_view(r.1.finished_at) == opt_view(outcome.finished_at),
{
    let now = utc_now();
    start_record(req, run_id, outcome, &now)
}

/// A started run is recorded under its id, in the mode and from the
/// template it was asked for, with the status, result and close time of
/// its outcome, started at `now`, and with the context it was given as
/// its input (`null` when none was given); the answer says the same.
pub proof fn lemma_start_record_keeps_the_request(
    req: ExecStart,
    run_id: String,
    outcome: RunOutcome,
    now: String,
    r: (StoredWorkflowExecution, ExecDto),
)
    requires
        call_ensures(start_record, (req, run_id, outcome, &now), r),
    ensures
        r.0.run_id@ == run_id@,
        r.0.template_id == req.template_id,
        r.0.mode == req.mode,
        r.0.status == outcome.status,
        r.0.result == outcome.result,
        r.0.close_time == outcome.finished_at,
        r.0.start_time@ == now@,
        req.init_ctx matches Some(c) ==> (r.0.input matches Some(i) && i@ == c@),
        req.init_ctx is None ==> (r.0.input matches Some(i) && i@ == seq!['n', 'u', 'l', 'l']),
        r.1.run_id@ == run_id@,
        r.1.status@ == outcome.status@,
        r.1.started_at@ == now@,
{
}

} // verus!
