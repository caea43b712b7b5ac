//! Conformance of a document to the schema of its kind.

use crate::config::ActionType;
use crate::document::{json_document, parse_json};
use crate::engine::{engine_errors, engine_validate, EngineError};
use crate::formats::{check_formats, formats_return};
use crate::patterns::{check_patterns, patterns_are_plain};
use crate::references::{check_references, references_end};
use crate::validation_state::{state_of_engine, StateView, ValidationState};
use serde_json::Value;
use valico::json_schema::ValidationState as EngineState;
use vstd::prelude::*;

verus! {

/// The text of the two schemas, one for each kind of document.
pub struct Schemas {
    pub action: String,
    pub workflow: String,
}

/// Why a schema could not be used.
#[derive(Copy, Clone, Debug, PartialEq, Eq, Structural)]
pub enum SchemaLoadError {
    /// The text of the schema is not JSON.
    NotJson,
    /// The schema holds a reference that is not known to end.
    EndlessReference,
    /// The schema asks for a format, or names an encoding, whose check is
    /// not known to return on every string.
    UnsafeFormat,
    /// The schema holds a pattern that is not plain.
    UnsafePattern,
    /// The engine refuses the schema.
    Rejected,
}

/// Whether a state is the state of some report of the engine: it has neither
/// kind nor path, and each of its errors stands for an error of the engine.
pub open spec fn is_engine_state(s: StateView) -> bool {
    exists|report: Seq<EngineError>| s == #[trigger] state_of_engine(report)
}

/// The error with which a schema is refused before the engine sees it, or
/// by the engine: one that is not JSON as such, then one with a reference
/// that is not known to end, then one with a format that is not known to
/// be checked without harm, then one with a pattern that is not plain; the
/// engine refuses what is left.
pub open spec fn schema_refusal(schema: Seq<char>) -> SchemaLoadError {
    match json_document(schema) {
        None => SchemaLoadError::NotJson,
        Some(json) => if !references_end(json) {
            SchemaLoadError::EndlessReference
        } else if !formats_return(json) {
            SchemaLoadError::UnsafeFormat
        } else if !patterns_are_plain(json) {
            SchemaLoadError::UnsafePattern
        } else {
            SchemaLoadError::Rejected
        },
    }
}

/// Whether a schema reaches the engine: it is JSON, its references end, its
/// formats return and its patterns are plain.
pub open spec fn reaches_engine(schema: Seq<char>) -> bool {
    json_document(schema) matches Some(json) && references_end(json) && formats_return(json)
        && patterns_are_plain(json)
}

/// Whether `r` is an answer that checking against `schema` may give.
///
/// A schema that does not reach the engine is refused with the error that
/// says why. Any other is either refused by the engine or gives the state
/// of a report of the engine.
pub open spec fn is_schema_answer(schema: Seq<char>, r: Result<ValidationState, SchemaLoadError>) -> bool {
    match r {
        Ok(s) => reaches_engine(schema) && is_engine_state(s@),
        Err(e) => e == schema_refusal(schema),
    }
}

/// Turns what the engine handed back into the answer of the check: without
/// a report the engine refused the schema, and a report gives the state that
/// stands for it.
pub fn schema_answer(outcome: Option<EngineState>) -> (r: Result<ValidationState, SchemaLoadError>)
    ensures
        match outcome {
            None => r matches Err(e) && e == SchemaLoadError::Rejected,
            Some(report) => r matches Ok(s) && s@ == state_of_engine(engine_errors(report)),
        },
{
    match outcome {
        None => Err(SchemaLoadError::Rejected),
        Some(report) => Ok(ValidationState::from_engine(&report)),
    }
}

/// Checks a document against a schema given as JSON text.
///
/// A schema that is not JSON, whose references are not known to end, that
/// asks for a format not known to be checked without harm, or that holds a
/// pattern that is not plain, is refused before the engine sees it. Which errors the engine finds in the
/// document, and in which order, is the engine's to say; [`schema_answer`]
/// says what is returned for each thing it hands back.
pub fn validate_with_schema(doc: &Value, schema: &str) -> (r: Result<ValidationState, SchemaLoadError>)
    ensures
        is_schema_answer(schema@, r),
{
    match parse_json(schema) {
        None => Err(SchemaLoadError::NotJson),
        Some(schema_json) => {
            if !check_references(&schema_json) {
                return Err(SchemaLoadError::EndlessReference);
            }
            if !check_formats(&schema_json) {
                return Err(SchemaLoadError::UnsafeFormat);
            }
            if !check_patterns(&schema_json) {
                return Err(SchemaLoadError::UnsafePattern);
            }
            let r = schema_answer(engine_validate(doc, schema_json));
            assert(r matches Ok(s) ==> is_engine_state(s@));
            r
        },
    }
}

/// Checks a document against the schema of Actions.
pub fn validate_as_action(doc: &Value, schemas: &Schemas) -> (r: Result<ValidationState, SchemaLoadError>)
    ensures
        is_schema_answer(schemas.action@, r),
{
    validate_with_schema(doc, schemas.action.as_str())
}

/// Checks a document against the schema of Workflows.
pub fn validate_as_workflow(doc: &Value, schemas: &Schemas) -> (r: Result<ValidationState, SchemaLoadError>)
    ensures
        is_schema_answer(schemas.workflow@, r),
{
    validate_with_schema(doc, schemas.workflow.as_str())
}

/// The text of the schema that governs documents of `kind`.
pub open spec fn schema_text(kind: ActionType, schemas: Schemas) -> Seq<char> {
    match kind {
        ActionType::Action => schemas.action@,
        ActionType::Workflow => schemas.workflow@,
    }
}

/// Checks a document against the schema of its kind.
pub fn validate_as_kind(doc: &Value, kind: ActionType, schemas: &Schemas) -> (r: Result<
    ValidationState,
    SchemaLoadError,
>)
    ensures
        is_schema_answer(schema_text(kind, *schemas), r),
{
    match kind {
        ActionType::Action => validate_as_action(doc, schemas),
        ActionType::Workflow => validate_as_workflow(doc, schemas),
    }
}

} // verus!
