//! The execution interface offered to the Flutter front end: requests
//! carry JSON as text, answers carry instants as RFC 3339 text.
use vstd::prelude::*;
use crate::dto::execution::{ExecDto, ExecStart};
use crate::json::{compact_text_of, json_shape_of, json_string_literal, parse_json, JsonShapeView};

verus! {

#[derive(Debug, Clone)]
pub struct FrbStartExecutionRequest {
    pub mode: String,
    pub template_id: Option<String>,
    pub dsl_json: Option<String>,
    pub init_ctx_json: Option<String>,
}

#[derive(Debug, Clone)]
pub struct FrbExecUpdateRequest {
    pub status: String,
    pub result_json: Option<String>,
}

#[derive(Debug, Clone)]
pub struct FrbListRequest {
    pub limit: Option<i64>,
    pub offset: Option<i64>,
}

#[derive(Debug, Clone)]
pub struct FrbListByStatusRequest {
    pub status: String,
    pub limit: Option<i64>,
    pub offset: Option<i64>,
}

#[derive(Debug, Clone)]
pub struct FrbExecutionResult {
    pub run_id: String,
    pub mode: String,
    pub status: String,
    pub result_json: Option<String>,
    pub started_at: String,
    pub finished_at: Option<String>,
}

/// An optional JSON field of a request: absent, read (as its compact
/// text), or refused with `"invalid <field>: <error>"`.
pub open spec fn json_field(field: Seq<char>, text: Option<String>) -> Result<Option<Seq<char>>, Seq<char>> {
    match text {
        None => Ok(None),
        Some(t) => match json_shape_of(t@) {
            JsonShapeView::Invalid(e) => Err("invalid "@ + field + ": "@ + e),
            shape => Ok(compact_text_of(shape)),
        },
    }
}

fn read_json_field(field: &str, text: &Option<String>) -> (r: Result<Option<String>, String>)
    ensures
        match (r, json_field(field@, *text)) {
            (Ok(Some(v)), Ok(Some(w))) => v@ == w,
            (Ok(None), Ok(None)) => true,
            (Err(m), Err(w)) => m@ == w,
            _ => false,
        },
{
    match text {
        None => Ok(None),
        Some(t) => match parse_json(t.as_str()) {
            Ok(v) => Ok(Some(v)),
            Err(e) => {
                let mut m = String::from_str("invalid ");
                m.append(field);
                m.append(": ");
                m.append(e.as_str());
                Err(m)
            },
        },
    }
}

/// The start request that a front-end request stands for: its JSON
/// fields read (the definition first, then the context), the other
/// fields carried over.
pub fn exec_start_request(req: FrbStartExecutionRequest) -> (r: Result<ExecStart, String>)
    ensures
        match (json_field("dsl_json"@, req.dsl_json), json_field("init_ctx_json"@, req.init_ctx_json)) {
            (Err(m), _) => r matches Err(e) && e@ == m,
            (Ok(_), Err(m)) => r matches Err(e) && e@ == m,
            (Ok(d), Ok(c)) => r matches Ok(s) && {
                &&& s.mode == req.mode
                &&& s.template_id == req.template_id
                &&& match (s.dsl, d) {
                    (Some(x), Some(y)) => x@ == y,
                    (None, None) => true,
                    _ => false,
                }
                &&& match (s.init_ctx, c) {
                    (Some(x), Some(y)) => x@ == y,
                    (None, None) => true,
                    _ => false,
                }
            },
        },
{
    let dsl = match read_json_field("dsl_json", &req.dsl_json) {
        Ok(d) => d,
        Err(m) => return Err(m),
    };
    let init_ctx = match read_json_field("init_ctx_json", &req.init_ctx_json) {
        Ok(c) => c,
        Err(m) => return Err(m),
    };
    Ok(ExecStart { template_id: req.template_id, dsl, init_ctx, mode: req.mode })
}

/// The new result that a front-end update carries: absent, read, or
/// refused.
pub fn update_result(req: &FrbExecUpdateRequest) -> (r: Result<Option<String>, String>)
    ensures
        match (r, json_field("result_json"@, req.result_json)) {
            (Ok(Some(v)), Ok(Some(w))) => v@ == w,
            (Ok(None), Ok(None)) => true,
            (Err(m), Err(w)) => m@ == w,
            _ => false,
        },
{
    read_json_field("result_json", &req.result_json)
}

/// A run as the front end receives it; the result is already JSON text
/// and the instants RFC 3339 text, so every field is carried over.
pub fn execution_result(dto: ExecDto) -> (r: FrbExecutionResult)
    ensures
        r.run_id == dto.run_id,
        r.mode == dto.mode,
        r.status == dto.status,
        r.result_json == dto.result,
        r.started_at == dto.started_at,
        r.finished_at == dto.finished_at,
{
    FrbExecutionResult {
        run_id: dto.run_id,
        mode: dto.mode,
        status: dto.status,
        result_json: dto.result,
        started_at: dto.started_at,
        finished_at: dto.finished_at,
    }
}

/// The JSON text `t` of a request field, read into `r`: every text that
/// parses is carried on as the compact text of its value, whatever kind
/// of value it is (an object or any other value as `serde_json` writes it
/// back, a string as its JSON literal); a text that does not parse is
/// refused with `"invalid <field>: <error>"`.
pub open spec fn field_read_as(field: Seq<char>, t: Seq<char>, r: Result<Option<String>, String>) -> bool {
    match json_shape_of(t) {
        JsonShapeView::Invalid(e) => r matches Err(m) && m@ == "invalid "@ + field + ": "@ + e,
        JsonShapeView::Object(o) => r matches Ok(Some(v)) && v@ == o,
        JsonShapeView::Other(o) => r matches Ok(Some(v)) && v@ == o,
        JsonShapeView::Text(x) => r matches Ok(Some(v)) && v@ == json_string_literal(x),
    }
}

/// The result of a front-end update is carried on whenever its text is
/// JSON, of any kind (object, array, number, boolean, `null` or string),
/// refused when it is not, and absent only when it was not given.
pub proof fn lemma_update_result_carries_every_json_value(req: FrbExecUpdateRequest, r: Result<Option<String>, String>)
    requires
        call_ensures(update_result, (&req,), r),
    ensures
        req.result_json is None ==> r == Ok::<Option<String>, String>(None),
        req.result_json matches Some(t) ==> field_read_as("result_json"@, t@, r),
{
}

/// The definition and the context of a front-end start request are
/// carried on whenever their texts are JSON, of any kind; a definition
/// that is not JSON is refused first, then a context that is not.
pub proof fn lemma_start_request_carries_every_json_value(req: FrbStartExecutionRequest, r: Result<ExecStart, String>)
    requires
        call_ensures(exec_start_request, (req,), r),
    ensures
        match req.dsl_json {
            Some(t) => json_shape_of(t@) is Invalid ==> field_read_as(
                "dsl_json"@,
                t@,
                match r {
                    Ok(_) => Ok::<Option<String>, String>(None),
                    Err(m) => Err(m),
                },
            ),
            None => true,
        },
        r matches Ok(st) ==> {
            &&& st.mode == req.mode
            &&& st.template_id == req.template_id
            &&& match req.dsl_json {
                None => st.dsl is None,
                Some(t) => field_read_as("dsl_json"@, t@, Ok(st.dsl)),
            }
            &&& match req.init_ctx_json {
                None => st.init_ctx is None,
                Some(t) => field_read_as("init_ctx_json"@, t@, Ok(st.init_ctx)),
            }
        },
        (match req.dsl_json {
            None => true,
            Some(t) => !(json_shape_of(t@) is Invalid),
        }) && (match req.init_ctx_json {
            None => true,
            Some(t) => !(json_shape_of(t@) is Invalid),
        }) ==> r is Ok,
{
}

} // verus!
