//! Path filters: every glob under `paths` and `paths-ignore` must be well
//! formed and match a file.
//!
//! Whether a glob matches is for the environment to say. The library lists
//! the globs to resolve, takes the outcomes as values, and turns them into
//! errors. A glob without an outcome was not resolved and gives no error.

use crate::document::{as_array, as_str, json_of, json_or_null, json_string_text, member, value_text, values_json, Json};
use crate::text::{join5, join6};
use crate::validation_error::{
    rule_view, ErrorKind, ErrorView, MetadataView, ValidationError, ValidationErrorMetadata,
};
use crate::validation_state::ValidationState;
use serde_json::Value;
use vstd::prelude::*;

verus! {

/// One glob to resolve: the field it stands in, as a JSON pointer, the
/// pattern itself, and the pattern as JSON text, as messages show it.
#[derive(Debug)]
pub struct GlobRequest {
    pub path: String,
    pub pattern: String,
    pub text: String,
}

/// The mathematical content of a [`GlobRequest`].
pub struct GlobRequestView {
    pub path: Seq<char>,
    pub pattern: Seq<char>,
    pub text: Seq<char>,
}

impl View for GlobRequest {
    type V = GlobRequestView;

    open spec fn view(&self) -> GlobRequestView {
        GlobRequestView { path: self.path@, pattern: self.pattern@, text: self.text@ }
    }
}

/// What the environment answered for one glob.
#[derive(Debug)]
pub enum GlobOutcome {
    /// The pattern is not a well-formed glob; `message` says why.
    Invalid { message: String },
    /// The pattern is well formed and matches `count` entries.
    Matched { count: usize },
}

/// The mathematical content of a [`GlobOutcome`].
pub enum GlobOutcomeView {
    Invalid { message: Seq<char> },
    Matched { count: nat },
}

impl View for GlobOutcome {
    type V = GlobOutcomeView;

    open spec fn view(&self) -> GlobOutcomeView {
        match self {
            GlobOutcome::Invalid { message } => GlobOutcomeView::Invalid { message: message@ },
            GlobOutcome::Matched { count } => GlobOutcomeView::Matched { count: *count as nat },
        }
    }
}

/// The views of a sequence of requests, one for one.
pub open spec fn requests_view(requests: Seq<GlobRequest>) -> Seq<GlobRequestView> {
    Seq::new(requests.len(), |i: int| requests[i]@)
}

/// The views of a sequence of outcomes, one for one.
pub open spec fn outcomes_view(outcomes: Seq<GlobOutcome>) -> Seq<GlobOutcomeView> {
    Seq::new(outcomes.len(), |i: int| outcomes[i]@)
}

/// The error for a pattern that is not a well-formed glob.
pub open spec fn invalid_glob_view(path: Seq<char>, text: Seq<char>, message: Seq<char>) -> ErrorView {
    rule_view(
        ErrorKind::InvalidGlob,
        MetadataView {
            code: "invalid_glob"@,
            path,
            title: "Glob does not match any files"@,
            detail: Some("Glob "@ + text + " in "@ + path + " is invalid: "@ + message),
        },
        Seq::empty(),
    )
}

/// The error for a glob that matches nothing.
pub open spec fn no_files_view(path: Seq<char>, text: Seq<char>) -> ErrorView {
    rule_view(
        ErrorKind::NoFilesMatchingGlob,
        MetadataView {
            code: "glob_not_matched"@,
            path,
            title: "Glob does not match any files"@,
            detail: Some("Glob "@ + text + " in "@ + path + " does not match any files"@),
        },
        Seq::empty(),
    )
}

/// The errors of one resolved glob: one where the pattern is malformed or
/// matches nothing, none where it matches something.
pub open spec fn request_errors(request: GlobRequestView, outcome: GlobOutcomeView) -> Seq<ErrorView> {
    match outcome {
        GlobOutcomeView::Invalid { message } => seq![invalid_glob_view(request.path, request.text, message)],
        GlobOutcomeView::Matched { count } => if count == 0 {
            seq![no_files_view(request.path, request.text)]
        } else {
            Seq::empty()
        },
    }
}

/// The errors of the first `n` requests, in their order, where outcome `i`
/// answers request `i`. A request beyond the outcomes gives no error.
pub open spec fn resolved_errors(requests: Seq<GlobRequestView>, outcomes: Seq<GlobOutcomeView>, n: int) -> Seq<
    ErrorView,
>
    decreases n,
{
    if n <= 0 {
        Seq::empty()
    } else {
        resolved_errors(requests, outcomes, n - 1) + (if n - 1 < outcomes.len() {
            request_errors(requests[n - 1], outcomes[n - 1])
        } else {
            Seq::empty()
        })
    }
}

/// Whether a field holds patterns to resolve: it is an array of strings.
pub open spec fn is_pattern_list(field: Json) -> bool {
    field matches Json::Array(items) && forall|i: int| 0 <= i < items.len() ==> (#[trigger] items[i]) is String
}

/// The request for one pattern of the field at `path`.
pub open spec fn request_of(path: Seq<char>, item: Json) -> GlobRequestView {
    GlobRequestView { path, pattern: item->String_0, text: json_string_text(item->String_0) }
}

/// The requests of one field: one for each pattern, in the array's order,
/// where the field is an array of strings, and none for any other value.
pub open spec fn field_requests(path: Seq<char>, field: Json) -> Seq<GlobRequestView> {
    if is_pattern_list(field) {
        Seq::new(field->Array_0.len(), |i: int| request_of(path, field->Array_0[i]))
    } else {
        Seq::empty()
    }
}

/// The value of the field `name` of the trigger `event` of a workflow.
pub open spec fn trigger_field(doc: Json, event: Seq<char>, name: Seq<char>) -> Json {
    doc.member("on"@).member(event).member(name)
}

/// The requests of a workflow: those of `on.push.paths`, then of
/// `on.push.paths-ignore`, of `on.pull_request.paths` and of
/// `on.pull_request.paths-ignore`.
pub open spec fn doc_requests(doc: Json) -> Seq<GlobRequestView> {
    field_requests("/on/push/paths"@, trigger_field(doc, "push"@, "paths"@)) + field_requests(
        "/on/push/paths-ignore"@,
        trigger_field(doc, "push"@, "paths-ignore"@),
    ) + field_requests("/on/pull_request/paths"@, trigger_field(doc, "pull_request"@, "paths"@))
        + field_requests("/on/pull_request/paths-ignore"@, trigger_field(doc, "pull_request"@, "paths-ignore"@))
}

/// The errors of the path filters of a workflow under the given outcomes.
pub open spec fn glob_errors(doc: Json, outcomes: Seq<GlobOutcomeView>) -> Seq<ErrorView> {
    resolved_errors(doc_requests(doc), outcomes, doc_requests(doc).len() as int)
}

impl ValidationError {
    /// The error for a pattern of the field at `path` that is not a
    /// well-formed glob. `text` is the pattern as messages show it.
    pub fn invalid_glob(path: &str, text: &str, message: &str) -> (e: ValidationError)
        ensures
            e@ == invalid_glob_view(path@, text@, message@),
    {
        ValidationError::from_kind(
            ErrorKind::InvalidGlob,
            ValidationErrorMetadata {
                code: "invalid_glob".to_owned(),
                path: path.to_owned(),
                title: "Glob does not match any files".to_owned(),
                detail: Some(join6("Glob ", text, " in ", path, " is invalid: ", message)),
            },
            Vec::new(),
        )
    }

    /// The error for a glob of the field at `path` that matches nothing.
    /// `text` is the pattern as messages show it.
    pub fn no_files_matching_glob(path: &str, text: &str) -> (e: ValidationError)
        ensures
            e@ == no_files_view(path@, text@),
    {
        ValidationError::from_kind(
            ErrorKind::NoFilesMatchingGlob,
            ValidationErrorMetadata {
                code: "glob_not_matched".to_owned(),
                path: path.to_owned(),
                title: "Glob does not match any files".to_owned(),
                detail: Some(join5("Glob ", text, " in ", path, " does not match any files")),
            },
            Vec::new(),
        )
    }
}

/// Whether every item is a string.
fn all_strings(items: &Vec<Value>) -> (r: bool)
    ensures
        r == is_pattern_list(Json::Array(values_json(items@))),
{
    let mut i: usize = 0;
    while i < items.len()
        invariant
            i <= items.len(),
            forall|k: int| 0 <= k < i ==> (#[trigger] values_json(items@)[k]) is String,
        decreases items.len() - i,
    {
        if as_str(&items[i]).is_none() {
            assert(!(values_json(items@)[i as int] is String));
            return false;
        }
        i = i + 1;
    }
    true
}

/// Appends the requests of the field at `path` to `requests`.
fn collect_field(field: Option<&Value>, path: &str, requests: &mut Vec<GlobRequest>)
    ensures
        requests_view(final(requests)@) == requests_view(old(requests)@) + field_requests(path@, json_or_null(field)),
{
    let items = match field {
        Some(value) => match as_array(value) {
            Some(items) => items,
            None => {
                return ;
            },
        },
        None => {
            return ;
        },
    };
    if !all_strings(items) {
        return ;
    }
    let ghost base = requests_view(requests@);
    let ghost wanted = field_requests(path@, json_or_null(field));
    let mut i: usize = 0;
    while i < items.len()
        invariant
            i <= items.len(),
            is_pattern_list(Json::Array(values_json(items@))),
            wanted == Seq::new(items@.len(), |k: int| request_of(path@, values_json(items@)[k])),
            requests_view(requests@) == base + wanted.take(i as int),
        decreases items.len() - i,
    {
        let item = &items[i];
        assert(values_json(items@)[i as int] is String);
        match as_str(item) {
            Some(pattern) => {
                let request = GlobRequest {
                    path: path.to_owned(),
                    pattern: pattern.to_owned(),
                    text: value_text(item),
                };
                assert(request@ == wanted[i as int]);
                let ghost before = requests@;
                requests.push(request);
                assert(requests_view(requests@) == requests_view(before).push(wanted[i as int]));
                assert(wanted.take(i + 1) == wanted.take(i as int).push(wanted[i as int]));
            },
            None => {},
        }
        i = i + 1;
    }
    assert(wanted.take(items@.len() as int) == wanted);
}

/// Lists the globs of a workflow that are to be resolved, field by field.
pub fn glob_requests(doc: &Value) -> (requests: Vec<GlobRequest>)
    ensures
        requests_view(requests@) == doc_requests(json_of(*doc)),
{
    let on = member(Some(doc), "on");
    let push = member(on, "push");
    let pull_request = member(on, "pull_request");
    let mut requests: Vec<GlobRequest> = Vec::new();
    collect_field(member(push, "paths"), "/on/push/paths", &mut requests);
    collect_field(member(push, "paths-ignore"), "/on/push/paths-ignore", &mut requests);
    collect_field(member(pull_request, "paths"), "/on/pull_request/paths", &mut requests);
    collect_field(member(pull_request, "paths-ignore"), "/on/pull_request/paths-ignore", &mut requests);
    requests
}

/// Turns the outcomes of resolving `requests` into errors.
///
/// Outcome `i` answers request `i`. For each request with an outcome, in
/// order, appends one error where the pattern is malformed and one where it
/// matches nothing. Requests without an outcome, and outcomes without a
/// request, change nothing.
pub fn validate_globs(requests: &Vec<GlobRequest>, outcomes: &Vec<GlobOutcome>, state: &mut ValidationState)
    ensures
        final(state)@.errors == old(state)@.errors + resolved_errors(
            requests_view(requests@),
            outcomes_view(outcomes@),
            requests@.len() as int,
        ),
        final(state)@.action_type == old(state)@.action_type,
        final(state)@.file_path == old(state)@.file_path,
{
    let ghost base = state@.errors;
    let mut i: usize = 0;
    while i < requests.len()
        invariant
            i <= requests.len(),
            state@.errors == base + resolved_errors(requests_view(requests@), outcomes_view(outcomes@), i as int),
            state@.action_type == old(state)@.action_type,
            state@.file_path == old(state)@.file_path,
        decreases requests.len() - i,
    {
        if i < outcomes.len() {
            let request = &requests[i];
            assert(requests_view(requests@)[i as int] == request@);
            assert(outcomes_view(outcomes@)[i as int] == outcomes@[i as int]@);
            match &outcomes[i] {
                GlobOutcome::Invalid { message } => {
                    state.push_error(
                        ValidationError::invalid_glob(
                            request.path.as_str(),
                            request.text.as_str(),
                            message.as_str(),
                        ),
                    );
                },
                GlobOutcome::Matched { count } => {
                    if *count == 0 {
                        state.push_error(
                            ValidationError::no_files_matching_glob(request.path.as_str(), request.text.as_str()),
                        );
                    }
                },
            }
        }
        i = i + 1;
    }
}

/// Checks the four path filters of a workflow under the given outcomes.
///
/// The outcomes answer the requests of [`glob_requests`], one for one.
pub fn validate_paths(doc: &Value, outcomes: &Vec<GlobOutcome>, state: &mut ValidationState)
    ensures
        final(state)@.errors == old(state)@.errors + glob_errors(json_of(*doc), outcomes_view(outcomes@)),
        final(state)@.action_type == old(state)@.action_type,
        final(state)@.file_path == old(state)@.file_path,
{
    let requests = glob_requests(doc);
    validate_globs(&requests, outcomes, state);
}

} // verus!
