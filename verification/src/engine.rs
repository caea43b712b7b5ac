//! The schema engine: what it reports, and the calls that reach it.
//!
//! Conformance to a schema is decided by `valico`. Its verdict is a value of
//! its own, read here through three operations, each stated over
//! [`engine_errors`].

use crate::document::json_of;
use crate::formats::formats_return;
use crate::patterns::patterns_are_plain;
use crate::references::references_end;
use crate::validation_error::{MetadataView, ValidationErrorMetadata};
use serde_json::Value;
use valico::json_schema::ValidationState as EngineState;
use vstd::prelude::*;

verus! {

/// `valico::json_schema::ValidationState`, the state that the engine hands
/// back from a validation, opaque here: [`engine_errors`] says what one holds.
#[verifier::external_type_specification]
#[verifier::external_body]
pub struct ExEngineState(EngineState);

/// One error as the engine reports it: its metadata and, for a failed
/// `anyOf` or `oneOf`, the errors of each branch.
pub struct EngineError {
    pub meta: MetadataView,
    pub branches: Seq<Seq<EngineError>>,
}

/// The errors that a state of the engine holds, in the order in which the
/// engine reported them.
pub uninterp spec fn engine_errors(state: EngineState) -> Seq<EngineError>;

/// Compiles the schema in a fresh `Scope` with `Scope::compile_and_return`
/// and runs `ScopedSchema::validate` on the document. Gives nothing where the
/// engine refuses the schema.
///
/// Asks that the references of the schema all end, since the engine follows
/// every `$ref` it meets and looks for no loop. The engine applies a schema
/// by running its keywords. A keyword hands the same value on only to
/// schemas further down in the schema it stands in, or, for `$ref`, to the
/// schema that the reference names. `properties`, `patternProperties`,
/// `additionalProperties`, `items`, `additionalItems` and `contains` hand on
/// parts of the value; `definitions` and `$defs` hand on nothing. A run that
/// does not return would therefore follow references on one value without
/// end. [`references_end`] rules that out: it follows every member but
/// those eight, reads a reference as the engine does, which it can where
/// the reference is plain and no `$id` stands below the top, and lets no
/// chain grow past its limit.
///
/// Asks as well that the schema names no encoding and asks only for formats
/// whose check returns on every string. Of its eighteen formats the engine
/// then runs at most these: `ipv4` and `ipv6`, which std parses; `uuid`
/// (`Uuid::parse_str`) and the two of JSON pointers (`json_pointer`'s
/// `parse`), which test lengths and characters before they index; and `uri`
/// and `iri`, which run `Url::parse`, the call that the engine makes on the
/// `$schema` of every schema. The check of `uri-template` indexes a
/// variable's characters by its length in bytes and is left out with the
/// rest.
///
/// Asks at last that every pattern of the schema is plain. The engine
/// compiles patterns with `fancy_regex::Regex::new`. Its parser hands back a
/// place one past the end for a conditional that is not closed and then
/// indexes there; its analysis multiplies and adds the counts of a pattern
/// without a test. A plain pattern has no conditional, counts of two digits
/// in at most three places and at most a thousand characters, and asks for
/// nothing that `fancy_regex` matches itself, so that after parsing and
/// analysis the pattern goes to the `regex` crate, which builds it or says
/// why not, and matches it.
///
/// Claims nothing of the result: the engine orders the rules of a schema by
/// a hash that each process seeds, so neither the order of its errors nor
/// whether it accepts a flawed schema follows from the arguments.
#[verifier::external_body]
pub(crate) fn engine_validate(doc: &Value, schema: Value) -> (r: Option<EngineState>)
    requires
        references_end(json_of(schema)),
        formats_return(json_of(schema)),
        patterns_are_plain(json_of(schema)),
{
    let mut scope = valico::json_schema::Scope::new();
    match scope.compile_and_return(schema, false) {
        Ok(compiled) => Some(compiled.validate(doc)),
        Err(_) => None,
    }
}

/// The length of the engine's `errors`.
#[verifier::external_body]
pub(crate) fn error_count(state: &EngineState) -> (n: usize)
    ensures
        n == engine_errors(*state).len(),
{
    state.errors.len()
}

/// The branch states of the engine's error `index`: the `states` of an
/// `AnyOf` or a `OneOf`, and none for an error of any other type.
#[verifier::external_body]
pub(crate) fn error_branches(state: &EngineState, index: usize) -> (r: Vec<&EngineState>)
    requires
        index < engine_errors(*state).len(),
    ensures
        r@.len() == engine_errors(*state)[index as int].branches.len(),
        forall|j: int|
            0 <= j < r@.len() ==> engine_errors(*#[trigger] r@[j]) == engine_errors(*state)[index as int].branches[j],
{
    let err = &state.errors[index];
    if let Some(any_of) = err.downcast_ref::<valico::json_schema::errors::AnyOf>() {
        any_of.states.iter().collect()
    } else if let Some(one_of) = err.downcast_ref::<valico::json_schema::errors::OneOf>() {
        one_of.states.iter().collect()
    } else {
        Vec::new()
    }
}

impl ValidationErrorMetadata {
    /// The metadata of the engine's error `index`, as `get_code`, `get_path`,
    /// `get_title` and `get_detail` of `ValicoError` give it.
    #[verifier::external_body]
    pub(crate) fn from_valico_error(state: &EngineState, index: usize) -> (meta: ValidationErrorMetadata)
        requires
            index < engine_errors(*state).len(),
        ensures
            meta@ == engine_errors(*state)[index as int].meta,
    {
        let err = &state.errors[index];
        ValidationErrorMetadata {
            code: err.get_code().into(),
            path: err.get_path().into(),
            title: err.get_title().into(),
            detail: err.get_detail().map(|s| s.into()),
        }
    }
}

} // verus!
