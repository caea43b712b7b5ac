//! The run: from the text of a document to the verdict on it.

use crate::config::{ActionType, Config};
use crate::document::{has_key, json_document, json_of, lemma_find_entry_has_key, load, yaml_document, Json, Parsed};
use crate::engine::EngineError;
use crate::globs::{
    doc_requests, glob_errors, glob_requests, outcomes_view, request_errors, requests_view, resolved_errors,
    validate_paths, GlobOutcome, GlobOutcomeView, GlobRequest, GlobRequestView,
};
use crate::jobs::{job_errors, jobs_errors, list_errors, need_errors, needs_errors, validate_job_needs};
use crate::schemas::{
    reaches_engine, schema_refusal, schema_text, validate_as_kind, SchemaLoadError, Schemas,
};
use crate::text::{opt_str_view, opt_to_owned};
use crate::validation_error::{
    error_of_engine, lemma_codes_name_their_kinds, parse_error_view, ErrorKind, ErrorView, ParseErrorLocation,
    ValidationError,
};
use crate::validation_state::{state_of_engine, StateView, ValidationState};
use serde_json::Value;
use vstd::prelude::*;

verus! {

/// The errors beyond the schema's: for a workflow those of the job
/// dependencies, then those of the path filters; for an action none.
pub open spec fn semantic_errors(kind: ActionType, doc: Json, outcomes: Seq<GlobOutcomeView>) -> Seq<ErrorView> {
    match kind {
        ActionType::Action => Seq::empty(),
        ActionType::Workflow => job_errors(doc) + glob_errors(doc, outcomes),
    }
}

/// The verdict on a document.
///
/// A text that does not parse gives the one parse error and nothing else.
/// A document gives the errors of the engine's report, in the engine's
/// order, then the errors of the job dependencies, then those of the path
/// filters. The verdict carries the kind and the path it was asked under.
pub open spec fn verdict(
    kind: ActionType,
    file_path: Option<Seq<char>>,
    parsed: Parsed,
    report: Seq<EngineError>,
    outcomes: Seq<GlobOutcomeView>,
) -> StateView {
    StateView {
        action_type: Some(kind),
        file_path,
        errors: match parsed {
            Parsed::Failure { detail, location } => seq![parse_error_view(detail, location)],
            Parsed::Document(doc) => state_of_engine(report).errors + semantic_errors(kind, doc, outcomes),
        },
    }
}

/// Whether `r` is an answer that a run on a document may give.
///
/// A schema that does not reach the engine is refused with the error that
/// says why. Any other is either refused by the engine or gives the verdict
/// for some report of the engine.
pub open spec fn is_document_answer(
    kind: ActionType,
    file_path: Option<Seq<char>>,
    doc: Json,
    schema: Seq<char>,
    outcomes: Seq<GlobOutcomeView>,
    r: Result<ValidationState, SchemaLoadError>,
) -> bool {
    match r {
        Ok(s) => reaches_engine(schema) && exists|report: Seq<EngineError>|
            s@ == #[trigger] verdict(kind, file_path, Parsed::Document(doc), report, outcomes),
        Err(e) => e == schema_refusal(schema),
    }
}

/// Whether `r` is an answer that a run may give.
///
/// A text that does not parse always has its verdict, whatever the schema.
/// A document has an answer of [`is_document_answer`].
pub open spec fn is_run_answer(
    kind: ActionType,
    file_path: Option<Seq<char>>,
    text: Seq<char>,
    schema: Seq<char>,
    outcomes: Seq<GlobOutcomeView>,
    r: Result<ValidationState, SchemaLoadError>,
) -> bool {
    match yaml_document(text) {
        Parsed::Failure { .. } => r matches Ok(s) && s@ == verdict(
            kind,
            file_path,
            yaml_document(text),
            Seq::empty(),
            outcomes,
        ),
        Parsed::Document(doc) => is_document_answer(kind, file_path, doc, schema, outcomes, r),
    }
}

/// The globs that a run on this text and kind wants resolved.
pub open spec fn wanted_globs(kind: ActionType, parsed: Parsed) -> Seq<GlobRequestView> {
    match parsed {
        Parsed::Document(doc) => match kind {
            ActionType::Workflow => doc_requests(doc),
            ActionType::Action => Seq::empty(),
        },
        Parsed::Failure { .. } => Seq::empty(),
    }
}

/// The verdict on a text that did not parse: the parse error alone, under
/// the kind and path of the request.
pub fn parse_failure(config: &Config, err: ValidationError) -> (state: ValidationState)
    ensures
        state@ == (StateView {
            action_type: Some(config.action_type),
            file_path: opt_str_view(config.file_path),
            errors: seq![err@],
        }),
{
    let mut errors: Vec<ValidationError> = Vec::new();
    errors.push(err);
    let state = ValidationState {
        action_type: Some(config.action_type),
        file_path: opt_to_owned(config.file_path),
        errors,
    };
    assert(state@.errors == seq![err@]);
    state
}

/// Completes the verdict on a document from the state of the schema check.
///
/// Stamps the kind and path of the request on `seed` and, for a workflow,
/// appends the errors of the job dependencies and then those of the path
/// filters under the given outcomes.
pub fn aggregate(config: &Config, doc: &Value, seed: ValidationState, outcomes: &Vec<GlobOutcome>) -> (state:
    ValidationState)
    ensures
        state@ == (StateView {
            action_type: Some(config.action_type),
            file_path: opt_str_view(config.file_path),
            errors: seed@.errors + semantic_errors(config.action_type, json_of(*doc), outcomes_view(outcomes@)),
        }),
{
    let mut state = seed;
    match config.action_type {
        ActionType::Action => {},
        ActionType::Workflow => {
            validate_job_needs(doc, &mut state);
            validate_paths(doc, outcomes, &mut state);
        },
    }
    state.action_type = Some(config.action_type);
    state.file_path = opt_to_owned(config.file_path);
    assert(state@.errors == seed@.errors + semantic_errors(
        config.action_type,
        json_of(*doc),
        outcomes_view(outcomes@),
    ));
    state
}

/// Turns the answer of the schema check into the answer of the run: a
/// refusal is handed on as it is, and a state is completed by [`aggregate`].
pub fn run_answer(
    config: &Config,
    doc: &Value,
    checked: Result<ValidationState, SchemaLoadError>,
    outcomes: &Vec<GlobOutcome>,
) -> (r: Result<ValidationState, SchemaLoadError>)
    ensures
        match checked {
            Err(e) => r matches Err(f) && f == e,
            Ok(seed) => r matches Ok(s) && s@ == (StateView {
                action_type: Some(config.action_type),
                file_path: opt_str_view(config.file_path),
                errors: seed@.errors + semantic_errors(config.action_type, json_of(*doc), outcomes_view(outcomes@)),
            }),
        },
{
    match checked {
        Err(e) => Err(e),
        Ok(seed) => Ok(aggregate(config, doc, seed, outcomes)),
    }
}

/// Validates a document that has been parsed.
///
/// What the engine reports for a document and a schema is the engine's to
/// say; [`run_answer`] says what is returned for each answer of the schema
/// check.
pub fn run_document(config: &Config, doc: &Value, schemas: &Schemas, outcomes: &Vec<GlobOutcome>) -> (r: Result<
    ValidationState,
    SchemaLoadError,
>)
    ensures
        is_document_answer(
            config.action_type,
            opt_str_view(config.file_path),
            json_of(*doc),
            schema_text(config.action_type, *schemas),
            outcomes_view(outcomes@),
            r,
        ),
{
    let checked = validate_as_kind(doc, config.action_type, schemas);
    let ghost report = if checked is Ok {
        choose|report: Seq<EngineError>| checked->Ok_0@ == #[trigger] state_of_engine(report)
    } else {
        Seq::empty()
    };
    let r = run_answer(config, doc, checked, outcomes);
    proof {
        if r is Ok {
            assert(r->Ok_0@ == verdict(
                config.action_type,
                opt_str_view(config.file_path),
                Parsed::Document(json_of(*doc)),
                report,
                outcomes_view(outcomes@),
            ));
        }
    }
    r
}

/// Validates what [`load`] made of a text: the parse error alone, or the
/// document as [`run_document`] does.
pub fn run_loaded(
    config: &Config,
    loaded: Result<Value, ValidationError>,
    schemas: &Schemas,
    outcomes: &Vec<GlobOutcome>,
) -> (r: Result<ValidationState, SchemaLoadError>)
    ensures
        match loaded {
            Err(e) => r matches Ok(s) && s@ == (StateView {
                action_type: Some(config.action_type),
                file_path: opt_str_view(config.file_path),
                errors: seq![e@],
            }),
            Ok(doc) => is_document_answer(
                config.action_type,
                opt_str_view(config.file_path),
                json_of(doc),
                schema_text(config.action_type, *schemas),
                outcomes_view(outcomes@),
                r,
            ),
        },
{
    match loaded {
        Err(err) => Ok(parse_failure(config, err)),
        Ok(doc) => run_document(config, &doc, schemas, outcomes),
    }
}

/// Validates one document.
///
/// `outcomes` answers the globs of [`requested_globs`], one for one. With
/// no outcomes at all, no glob is checked.
pub fn run(config: &Config, schemas: &Schemas, outcomes: &Vec<GlobOutcome>) -> (r: Result<
    ValidationState,
    SchemaLoadError,
>)
    ensures
        is_run_answer(
            config.action_type,
            opt_str_view(config.file_path),
            config.src@,
            schema_text(config.action_type, *schemas),
            outcomes_view(outcomes@),
            r,
        ),
{
    run_loaded(config, load(config.src), schemas, outcomes)
}

/// Lists the globs that [`run_loaded`] wants resolved: those of the path
/// filters where there is a document and it is taken for a workflow, and
/// none otherwise.
pub fn loaded_globs(config: &Config, loaded: &Result<Value, ValidationError>) -> (requests: Vec<GlobRequest>)
    ensures
        requests_view(requests@) == (match *loaded {
            Ok(doc) => wanted_globs(config.action_type, Parsed::Document(json_of(doc))),
            Err(_) => Seq::empty(),
        }),
{
    match loaded {
        Err(_) => Vec::new(),
        Ok(doc) => match config.action_type {
            ActionType::Action => Vec::new(),
            ActionType::Workflow => glob_requests(doc),
        },
    }
}

/// Lists the globs that [`run`] wants resolved for this request: those of
/// the path filters where the text parses and is taken for a workflow, and
/// none otherwise.
pub fn requested_globs(config: &Config) -> (requests: Vec<GlobRequest>)
    ensures
        requests_view(requests@) == wanted_globs(config.action_type, yaml_document(config.src@)),
{
    let loaded = load(config.src);
    loaded_globs(config, &loaded)
}

/// Whether an entry of a `needs` asks for nothing that is missing: it names
/// a job of `jobs`, or is no string.
pub open spec fn names_a_job(jobs: Json, need: Json) -> bool {
    need matches Json::String(name) ==> has_key(jobs.entries(), name)
}

/// Whether a `needs` asks for nothing that is missing.
pub open spec fn needs_resolve(jobs: Json, needs: Json) -> bool {
    match needs {
        Json::String(_) => names_a_job(jobs, needs),
        Json::Array(items) => forall|k: int| 0 <= k < items.len() ==> names_a_job(jobs, #[trigger] items[k]),
        _ => true,
    }
}

/// Whether every job that a job of the document needs is a job of the document.
pub open spec fn jobs_resolve(doc: Json) -> bool {
    let jobs = doc.member("jobs"@);
    forall|i: int|
        0 <= i < jobs.entries().len() ==> needs_resolve(jobs, (#[trigger] jobs.entries()[i]).1.member("needs"@))
}

/// Whether an outcome says that the glob is well formed and matches a file.
pub open spec fn is_match(outcome: GlobOutcomeView) -> bool {
    outcome matches GlobOutcomeView::Matched { count } && count > 0
}

/// Whether every glob of the document that was resolved matches a file.
pub open spec fn globs_resolve(doc: Json, outcomes: Seq<GlobOutcomeView>) -> bool {
    forall|i: int| 0 <= i < doc_requests(doc).len() && i < outcomes.len() ==> is_match(#[trigger] outcomes[i])
}

proof fn lemma_list_resolves(jobs: Json, job: Seq<char>, items: Seq<Json>, n: int)
    requires
        0 <= n <= items.len(),
        forall|k: int| 0 <= k < items.len() ==> names_a_job(jobs, #[trigger] items[k]),
    ensures
        list_errors(jobs, job, items, n) == Seq::<ErrorView>::empty(),
    decreases n,
{
    if n > 0 {
        lemma_list_resolves(jobs, job, items, n - 1);
        lemma_need_resolves(jobs, job, items[n - 1]);
    }
}

proof fn lemma_need_resolves(jobs: Json, job: Seq<char>, need: Json)
    requires
        names_a_job(jobs, need),
    ensures
        need_errors(jobs, job, need) == Seq::<ErrorView>::empty(),
{
    if let Json::String(name) = need {
        lemma_find_entry_has_key(jobs.entries(), name);
    }
}

proof fn lemma_jobs_resolve(jobs: Json, n: int)
    requires
        0 <= n <= jobs.entries().len(),
        forall|i: int|
            0 <= i < jobs.entries().len() ==> needs_resolve(jobs, (#[trigger] jobs.entries()[i]).1.member("needs"@)),
    ensures
        jobs_errors(jobs, n) == Seq::<ErrorView>::empty(),
    decreases n,
{
    if n > 0 {
        lemma_jobs_resolve(jobs, n - 1);
        let entry = jobs.entries()[n - 1];
        let needs = entry.1.member("needs"@);
        assert(needs_resolve(jobs, needs));
        match needs {
            Json::String(_) => {
                lemma_need_resolves(jobs, entry.0, needs);
            },
            Json::Array(items) => {
                lemma_list_resolves(jobs, entry.0, items, items.len() as int);
            },
            _ => {},
        }
    }
}

proof fn lemma_globs_resolve(requests: Seq<GlobRequestView>, outcomes: Seq<GlobOutcomeView>, n: int)
    requires
        0 <= n <= requests.len(),
        forall|i: int| 0 <= i < requests.len() && i < outcomes.len() ==> is_match(#[trigger] outcomes[i]),
    ensures
        resolved_errors(requests, outcomes, n) == Seq::<ErrorView>::empty(),
    decreases n,
{
    if n > 0 {
        lemma_globs_resolve(requests, outcomes, n - 1);
        if n - 1 < outcomes.len() {
            assert(is_match(outcomes[n - 1]));
        }
    }
}

/// A document that its schema accepts, in which every job that is needed
/// exists and every resolved glob matches a file, is valid: the verdict
/// holds no error.
pub proof fn lemma_conforming_document_is_valid(
    kind: ActionType,
    file_path: Option<Seq<char>>,
    doc: Json,
    report: Seq<EngineError>,
    outcomes: Seq<GlobOutcomeView>,
)
    requires
        report.len() == 0,
        kind == ActionType::Workflow ==> jobs_resolve(doc) && globs_resolve(doc, outcomes),
    ensures
        verdict(kind, file_path, Parsed::Document(doc), report, outcomes).errors.len() == 0,
{
    if kind == ActionType::Workflow {
        let jobs = doc.member("jobs"@);
        lemma_jobs_resolve(jobs, jobs.entries().len() as int);
        lemma_globs_resolve(doc_requests(doc), outcomes, doc_requests(doc).len() as int);
    }
}

/// Whether an error reports a rule of the schema.
pub open spec fn is_schema_error(e: ErrorView) -> bool {
    e matches ErrorView::Rule { kind, .. } && kind != ErrorKind::UnresolvedJob && kind != ErrorKind::InvalidGlob
        && kind != ErrorKind::NoFilesMatchingGlob
}

/// Whether an error reports a job dependency.
pub open spec fn is_job_error(e: ErrorView) -> bool {
    e matches ErrorView::Rule { kind, .. } && kind == ErrorKind::UnresolvedJob
}

/// Whether an error reports a path filter.
pub open spec fn is_glob_error(e: ErrorView) -> bool {
    e matches ErrorView::Rule { kind, .. } && (kind == ErrorKind::InvalidGlob || kind
        == ErrorKind::NoFilesMatchingGlob)
}

/// How many errors of the schema stand at the front of a sequence, from
/// place `i` on.
pub open spec fn leading_schema_errors(errors: Seq<ErrorView>, i: int) -> nat
    decreases errors.len() - i,
{
    if 0 <= i < errors.len() && is_schema_error(errors[i]) {
        1 + leading_schema_errors(errors, i + 1)
    } else {
        0
    }
}

/// The number of schema errors with which a verdict begins. The errors of
/// the jobs and of the globs stand behind them.
pub fn schema_error_count(state: &ValidationState) -> (n: usize)
    ensures
        n == leading_schema_errors(state@.errors, 0),
{
    let mut n: usize = 0;
    while n < state.errors.len()
        invariant
            n <= state.errors@.len(),
            leading_schema_errors(state@.errors, 0) == n + leading_schema_errors(state@.errors, n as int),
        decreases state.errors@.len() - n,
    {
        assert(state@.errors[n as int] == state.errors@[n as int]@);
        match state.errors[n].kind() {
            None => {
                return n;
            },
            Some(ErrorKind::UnresolvedJob) | Some(ErrorKind::InvalidGlob) | Some(ErrorKind::NoFilesMatchingGlob) => {
                return n;
            },
            Some(_) => {},
        }
        n = n + 1;
    }
    n
}

/// Whether every error of a sequence satisfies `p`.
spec fn all_errors(errors: Seq<ErrorView>, p: spec_fn(ErrorView) -> bool) -> bool {
    forall|i: int| 0 <= i < errors.len() ==> p(#[trigger] errors[i])
}

proof fn lemma_all_errors_concat(a: Seq<ErrorView>, b: Seq<ErrorView>, p: spec_fn(ErrorView) -> bool)
    requires
        all_errors(a, p),
        all_errors(b, p),
    ensures
        all_errors(a + b, p),
{
    assert forall|i: int| 0 <= i < (a + b).len() implies p(#[trigger] (a + b)[i]) by {
        if i < a.len() {
            assert((a + b)[i] == a[i]);
        } else {
            assert((a + b)[i] == b[i - a.len()]);
        }
    }
}

proof fn lemma_list_errors_are_job_errors(jobs: Json, job: Seq<char>, items: Seq<Json>, n: int)
    ensures
        all_errors(list_errors(jobs, job, items, n), |e: ErrorView| is_job_error(e)),
    decreases n,
{
    let p = |e: ErrorView| is_job_error(e);
    if n > 0 {
        lemma_list_errors_are_job_errors(jobs, job, items, n - 1);
        assert(all_errors(need_errors(jobs, job, items[n - 1]), p));
        lemma_all_errors_concat(list_errors(jobs, job, items, n - 1), need_errors(jobs, job, items[n - 1]), p);
    }
}

proof fn lemma_jobs_errors_are_job_errors(jobs: Json, n: int)
    ensures
        all_errors(jobs_errors(jobs, n), |e: ErrorView| is_job_error(e)),
    decreases n,
{
    let p = |e: ErrorView| is_job_error(e);
    if n > 0 {
        lemma_jobs_errors_are_job_errors(jobs, n - 1);
        let entry = jobs.entries()[n - 1];
        let needs = entry.1.member("needs"@);
        if let Json::Array(items) = needs {
            lemma_list_errors_are_job_errors(jobs, entry.0, items, items.len() as int);
        }
        assert(all_errors(needs_errors(jobs, entry.0, needs), p));
        lemma_all_errors_concat(jobs_errors(jobs, n - 1), needs_errors(jobs, entry.0, needs), p);
    }
}

proof fn lemma_resolved_errors_are_glob_errors(
    requests: Seq<GlobRequestView>,
    outcomes: Seq<GlobOutcomeView>,
    n: int,
)
    ensures
        all_errors(resolved_errors(requests, outcomes, n), |e: ErrorView| is_glob_error(e)),
    decreases n,
{
    let p = |e: ErrorView| is_glob_error(e);
    if n > 0 {
        lemma_resolved_errors_are_glob_errors(requests, outcomes, n - 1);
        let last = if n - 1 < outcomes.len() {
            request_errors(requests[n - 1], outcomes[n - 1])
        } else {
            Seq::empty()
        };
        assert(all_errors(last, p));
        lemma_all_errors_concat(resolved_errors(requests, outcomes, n - 1), last, p);
    }
}

/// The errors of a verdict stand in a fixed order: first those of the schema,
/// as many as the engine reported, then those of the job dependencies, then
/// those of the path filters.
pub proof fn lemma_verdict_order(
    kind: ActionType,
    file_path: Option<Seq<char>>,
    doc: Json,
    report: Seq<EngineError>,
    outcomes: Seq<GlobOutcomeView>,
)
    ensures
        ({
            let errors = verdict(kind, file_path, Parsed::Document(doc), report, outcomes).errors;
            let jobs_from = report.len() as int;
            let globs_from = jobs_from + (match kind {
                ActionType::Action => 0,
                ActionType::Workflow => job_errors(doc).len() as int,
            });
            &&& jobs_from <= globs_from <= errors.len()
            &&& forall|i: int| 0 <= i < jobs_from ==> is_schema_error(#[trigger] errors[i])
            &&& forall|i: int| jobs_from <= i < globs_from ==> is_job_error(#[trigger] errors[i])
            &&& forall|i: int| globs_from <= i < errors.len() ==> is_glob_error(#[trigger] errors[i])
        }),
{
    let jobs = doc.member("jobs"@);
    lemma_jobs_errors_are_job_errors(jobs, jobs.entries().len() as int);
    lemma_resolved_errors_are_glob_errors(doc_requests(doc), outcomes, doc_requests(doc).len() as int);
    let errors = verdict(kind, file_path, Parsed::Document(doc), report, outcomes).errors;
    let schema = state_of_engine(report).errors;
    assert forall|i: int| 0 <= i < report.len() implies is_schema_error(#[trigger] errors[i]) by {
        assert(errors[i] == schema[i]);
    }
    if kind == ActionType::Workflow {
        let of_jobs = job_errors(doc);
        let of_globs = glob_errors(doc, outcomes);
        assert(all_errors(of_jobs, |e: ErrorView| is_job_error(e)));
        assert(all_errors(of_globs, |e: ErrorView| is_glob_error(e)));
        assert forall|i: int| report.len() <= i < report.len() + of_jobs.len() implies is_job_error(
            #[trigger] errors[i],
        ) by {
            assert(errors[i] == of_jobs[i - report.len()]);
        }
        assert forall|i: int| report.len() + of_jobs.len() <= i < errors.len() implies is_glob_error(
            #[trigger] errors[i],
        ) by {
            assert(errors[i] == of_globs[i - report.len() - of_jobs.len()]);
        }
    }
}

/// The errors of the schema at the front of a verdict are those of the
/// engine's report, as many as it has, and a text that does not parse has
/// none.
pub proof fn lemma_schema_errors_are_the_report(
    kind: ActionType,
    file_path: Option<Seq<char>>,
    parsed: Parsed,
    report: Seq<EngineError>,
    outcomes: Seq<GlobOutcomeView>,
)
    ensures
        leading_schema_errors(verdict(kind, file_path, parsed, report, outcomes).errors, 0) == (match parsed {
            Parsed::Document(_) => report.len(),
            Parsed::Failure { .. } => 0,
        }),
{
    let errors = verdict(kind, file_path, parsed, report, outcomes).errors;
    match parsed {
        Parsed::Failure { .. } => {
            assert(!is_schema_error(errors[0]));
        },
        Parsed::Document(doc) => {
            lemma_verdict_order(kind, file_path, doc, report, outcomes);
            lemma_leading_count(errors, report.len() as int, 0);
        },
    }
}

/// Where the first `n` errors are the schema's and the next is not, the
/// count from place `i` among them is what is left of `n`.
proof fn lemma_leading_count(errors: Seq<ErrorView>, n: int, i: int)
    requires
        0 <= i <= n <= errors.len(),
        forall|k: int| 0 <= k < n ==> is_schema_error(#[trigger] errors[k]),
        n < errors.len() ==> !is_schema_error(errors[n]),
    ensures
        leading_schema_errors(errors, i) == n - i,
    decreases n - i,
{
    if i < n {
        lemma_leading_count(errors, n, i + 1);
    }
}

/// A text that does not parse has exactly one error, the parse error,
/// whatever the schema engine or the globs would have said.
pub proof fn lemma_unparsable_text_has_one_error(
    kind: ActionType,
    file_path: Option<Seq<char>>,
    detail: Seq<char>,
    location: Option<ParseErrorLocation>,
    report: Seq<EngineError>,
    outcomes: Seq<GlobOutcomeView>,
)
    ensures
        verdict(kind, file_path, Parsed::Failure { detail, location }, report, outcomes).errors
            == seq![parse_error_view(detail, location)],
        verdict(kind, file_path, Parsed::Failure { detail, location }, report, outcomes).errors.len() == 1,
        verdict(kind, file_path, Parsed::Failure { detail, location }, report, outcomes).errors[0] is Parse,
{
}

/// The error for a failed `anyOf` or `oneOf` keeps one state per branch, in
/// the order of the branches, and each state holds the errors of its own
/// branch, one for one, and of no other.
pub proof fn lemma_combinator_keeps_branches(e: EngineError)
    requires
        e.meta.code == "any_of"@ || e.meta.code == "one_of"@,
    ensures
        error_of_engine(e) matches ErrorView::Rule { kind, meta, states } && kind == (if e.meta.code == "any_of"@ {
            ErrorKind::AnyOf
        } else {
            ErrorKind::OneOf
        }) && meta == e.meta && states.len() == e.branches.len() && (forall|j: int|
            0 <= j < e.branches.len() ==> #[trigger] states[j] == state_of_engine(e.branches[j])) && (forall|
            j: int,
            k: int,
        |
            0 <= j < e.branches.len() && 0 <= k < e.branches[j].len() ==> states[j].errors.len()
                == e.branches[j].len() && #[trigger] states[j].errors[k] == error_of_engine(e.branches[j][k])),
{
    lemma_codes_name_their_kinds();
}

/// The errors of a state that stands for a report are the report's, one for
/// one and in the same order: none is dropped, whatever its code.
pub proof fn lemma_report_is_kept(report: Seq<EngineError>)
    ensures
        state_of_engine(report).errors.len() == report.len(),
        forall|i: int|
            0 <= i < report.len() ==> #[trigger] state_of_engine(report).errors[i] == error_of_engine(report[i]),
        forall|i: int|
            0 <= i < report.len() ==> ((#[trigger] state_of_engine(report).errors[i]) matches ErrorView::Rule {
                meta,
                ..
            } && meta == report[i].meta),
{
}

/// Validating the same text as the same kind under the same outcomes gives
/// the same verdict, apart from the path it is shown under, whenever the
/// schema engine reports the same. For a text that does not parse the
/// engine has no say.
pub proof fn lemma_same_input_same_verdict(
    kind: ActionType,
    path_a: Option<Seq<char>>,
    path_b: Option<Seq<char>>,
    text: Seq<char>,
    report_a: Seq<EngineError>,
    report_b: Seq<EngineError>,
    outcomes: Seq<GlobOutcomeView>,
)
    requires
        yaml_document(text) is Document ==> report_a == report_b,
    ensures
        verdict(kind, path_a, yaml_document(text), report_a, outcomes).errors == verdict(
            kind,
            path_b,
            yaml_document(text),
            report_b,
            outcomes,
        ).errors,
        verdict(kind, path_a, yaml_document(text), report_a, outcomes).action_type == verdict(
            kind,
            path_b,
            yaml_document(text),
            report_b,
            outcomes,
        ).action_type,
{
}

} // verus!
