//! Creating, rewriting and reading workflow templates.
use vstd::prelude::*;
use crate::dto::template::{TemplateDto, TemplateUpsert};
use crate::entities::{UpdateWorkflowTemplate, WorkflowTemplate};
use crate::error::{found, AppError};
use crate::json::{compact_text_of, json_shape_of, null_text, null_value, parse_json};

use crate::ids::{is_uuid_v4_text, new_uuid};
use crate::time::{is_instant_text, utc_now};
verus! {

/// The number of templates that the template list reads.
pub fn list_size() -> (r: i64)
    ensures
        r == 100,
{
    100
}

/// The record and the answer for template `id` created from `body` at
/// `now`: the definition is stored as it was given, the version is 1.
pub fn created_template(id: String, body: TemplateUpsert, now: &String) -> (r: (WorkflowTemplate, TemplateDto))
    ensures
        r.0.template_id@ == id@,
        r.0.name@ == body.name@,
        r.0.description is None,
        r.0.dsl_definition@ == body.dsl@,
        r.0.version == 1,
        r.0.created_at@ == now@,
        r.0.updated_at@ == now@,
        r.1.id@ == id@,
        r.1.name@ == body.name@,
        r.1.dsl == body.dsl,
        r.1.created_at@ == now@,
{
    let row = WorkflowTemplate {
        template_id: id.clone(),
        name: body.name.clone(),
        description: None,
        dsl_definition: body.dsl.clone(),
        version: 1,
        created_at: now.clone(),
        updated_at: now.clone(),
    };
    let dto = TemplateDto { id, name: body.name, dsl: body.dsl, created_at: now.clone() };
    (row, dto)
}

/// The changes that rewrite an existing template from `body`: its name
/// and definition, its version set back to 1.
pub fn template_changes(body: TemplateUpsert) -> (r: UpdateWorkflowTemplate)
    ensures
        r.name == Some(body.name),
        r.description is None,
        r.dsl_definition == Some(body.dsl),
        r.version == Some(1i64),
{
    UpdateWorkflowTemplate {
        name: Some(body.name),
        description: None,
        dsl_definition: Some(body.dsl),
        version: Some(1),
    }
}

/// A template can only be rewritten if it exists.
pub fn require_existing(exists: bool) -> (r: Result<(), AppError>)
    ensures
        exists <==> r is Ok,
        !exists ==> r matches Err(AppError::NotFound),
{
    if exists {
        Ok(())
    } else {
        Err(AppError::NotFound)
    }
}

/// The definition shown for a stored definition text: the JSON value it
/// holds, or `null` if it does not read as JSON.
pub open spec fn shown_definition(stored: Seq<char>) -> Seq<char> {
    match compact_text_of(json_shape_of(stored)) {
        Some(t) => t,
        None => null_text(),
    }
}

/// A stored template as the routes return it.
pub fn template_dto_from_row(row: WorkflowTemplate) -> (r: TemplateDto)
    ensures
        r.id == row.template_id,
        r.name == row.name,
        r.dsl@ == shown_definition(row.dsl_definition@),
        r.created_at == row.created_at,
{
    let dsl = match parse_json(row.dsl_definition.as_str()) {
        Ok(t) => t,
        Err(_) => null_value(),
    };
    TemplateDto { id: row.template_id, name: row.name, dsl, created_at: row.created_at }
}


/// A new template from `body`, with a fresh id, created now: as
/// [`created_template`] with a random UUID at the current instant.
pub fn create_template(body: TemplateUpsert) -> (r: (WorkflowTemplate, TemplateDto))
    ensures
        is_uuid_v4_text(r.0.template_id@),
        r.0.name@ == body.name@,
        r.0.description is None,
        r.0.dsl_definition@ == body.dsl@,
        r.0.version == 1,
        r.0.updated_at@ == r.0.created_at@,
        is_instant_text(r.0.created_at@),
        r.1.id@ == r.0.template_id@,
        r.1.name@ == body.name@,
        r.1.dsl == body.dsl,
        r.1.created_at@ == r.0.created_at@,
{
    let now = utc_now();
    created_template(new_uuid(), body, &now)
}

/// A definition held in the form in which `serde_json` writes it back:
/// reading it as JSON and writing the value compactly gives the same text.
pub open spec fn is_compact_json(text: Seq<char>) -> bool {
    compact_text_of(json_shape_of(text)) == Some(text)
}

/// A created template reads back as it was given: the row that
/// [`created_template`] writes, shown by [`template_dto_from_row`], has
/// the id, the name, the definition and the creation instant that went
/// in, where the definition is compact JSON text.
pub proof fn lemma_created_template_reads_back(
    id: String,
    body: TemplateUpsert,
    now: String,
    written: (WorkflowTemplate, TemplateDto),
    read: TemplateDto,
)
    requires
        is_compact_json(body.dsl@),
        call_ensures(created_template, (id, body, &now), written),
        call_ensures(template_dto_from_row, (written.0,), read),
    ensures
        read.id@ == id@,
        read.name@ == body.name@,
        read.dsl@ == body.dsl@,
        read.created_at@ == now@,
        read.dsl@ == written.1.dsl@,
{
}

/// A rewritten template reads back with the name and the definition that
/// were given: a stored row that carries the changes of
/// [`template_changes`], shown by [`template_dto_from_row`], has them,
/// where the definition is compact JSON text.
pub proof fn lemma_rewritten_template_reads_back(
    body: TemplateUpsert,
    changes: UpdateWorkflowTemplate,
    row: WorkflowTemplate,
    read: TemplateDto,
)
    requires
        is_compact_json(body.dsl@),
        call_ensures(template_changes, (body,), changes),
        changes.name == Some(row.name),
        changes.dsl_definition == Some(row.dsl_definition),
        call_ensures(template_dto_from_row, (row,), read),
    ensures
        read.name@ == body.name@,
        read.dsl@ == body.dsl@,
        read.id == row.template_id,
{
}

/// Reading a template that is not stored is refused with `NotFound`.
pub proof fn lemma_missing_template_not_found(r: Result<WorkflowTemplate, AppError>)
    requires
        call_ensures(found::<WorkflowTemplate>, (None::<WorkflowTemplate>,), r),
    ensures
        r matches Err(AppError::NotFound),
{
}

} // verus!
