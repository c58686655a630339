//! Workflow templates: the records and requests of the template routes.
//! Definitions are JSON text, instants RFC 3339 text.
use vstd::prelude::*;
use crate::ids::{is_uuid_v4_text, new_uuid};
use crate::time::{is_instant_text, utc_now};

verus! {

/// A template to create or to write over an existing one.
#[derive(Debug, Clone)]
pub struct TemplateUpsert {
    pub name: String,
    pub dsl: String,
}

/// A template as the routes return it.
#[derive(Debug, Clone)]
pub struct TemplateDto {
    pub id: String,
    pub name: String,
    pub dsl: String,
    pub created_at: String,
}

impl TemplateDto {
    /// A new template from `u`, with a fresh id and the current time.
    pub fn from_upsert(u: TemplateUpsert) -> (r: TemplateDto)
        ensures
            is_uuid_v4_text(r.id@),
            r.name == u.name,
            r.dsl == u.dsl,
            is_instant_text(r.created_at@),
    {
        TemplateDto { id: new_uuid(), name: u.name, dsl: u.dsl, created_at: utc_now() }
    }
}

} // verus!
