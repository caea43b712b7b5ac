//! Job dependencies: every job that a job needs must be a job of the workflow.

use crate::document::{as_array, as_str, entries, entries_json, json_of, lookup, values_json, Json};
use crate::text::{join2, join3};
use crate::validation_error::{
    rule_view, ErrorKind, ErrorView, MetadataView, ValidationError, ValidationErrorMetadata,
};
use crate::validation_state::ValidationState;
use serde_json::Value;
use vstd::prelude::*;

verus! {

/// The error for a job that needs a job which the workflow does not define.
pub open spec fn unresolved_job_view(job: Seq<char>, need: Seq<char>) -> ErrorView {
    rule_view(
        ErrorKind::UnresolvedJob,
        MetadataView {
            code: "unresolved_job"@,
            path: "/jobs/"@ + job + "/needs"@,
            title: "Unresolved job"@,
            detail: Some("unresolved job "@ + need),
        },
        Seq::empty(),
    )
}

/// The errors of one entry of a job's needs: one where the entry is a string
/// that names no job, none where it names a job or is no string.
pub open spec fn need_errors(jobs: Json, job: Seq<char>, need: Json) -> Seq<ErrorView> {
    match need {
        Json::String(name) => if jobs.get(name) is None {
            seq![unresolved_job_view(job, name)]
        } else {
            Seq::empty()
        },
        _ => Seq::empty(),
    }
}

/// The errors of the first `n` entries of a list of needs, in the list's order.
pub open spec fn list_errors(jobs: Json, job: Seq<char>, items: Seq<Json>, n: int) -> Seq<ErrorView>
    decreases n,
{
    if n <= 0 {
        Seq::empty()
    } else {
        list_errors(jobs, job, items, n - 1) + need_errors(jobs, job, items[n - 1])
    }
}

/// The errors of a job's `needs`, which is one name, a list of names, or
/// anything else, which asks for nothing.
pub open spec fn needs_errors(jobs: Json, job: Seq<char>, needs: Json) -> Seq<ErrorView> {
    match needs {
        Json::String(_) => need_errors(jobs, job, needs),
        Json::Array(items) => list_errors(jobs, job, items, items.len() as int),
        _ => Seq::empty(),
    }
}

/// The errors of the first `n` jobs, in the order of the jobs.
pub open spec fn jobs_errors(jobs: Json, n: int) -> Seq<ErrorView>
    decreases n,
{
    if n <= 0 {
        Seq::empty()
    } else {
        let entry = jobs.entries()[n - 1];
        jobs_errors(jobs, n - 1) + needs_errors(jobs, entry.0, entry.1.member("needs"@))
    }
}

/// The errors of the job dependencies of a document.
pub open spec fn job_errors(doc: Json) -> Seq<ErrorView> {
    let jobs = doc.member("jobs"@);
    jobs_errors(jobs, jobs.entries().len() as int)
}

impl ValidationError {
    /// The error for `job`, which needs `need`, a job that the workflow does
    /// not define.
    pub fn unresolved_job(job: &str, need: &str) -> (e: ValidationError)
        ensures
            e@ == unresolved_job_view(job@, need@),
    {
        ValidationError::from_kind(
            ErrorKind::UnresolvedJob,
            ValidationErrorMetadata {
                code: "unresolved_job".to_owned(),
                path: join3("/jobs/", job, "/needs"),
                title: "Unresolved job".to_owned(),
                detail: Some(join2("unresolved job ", need)),
            },
            Vec::new(),
        )
    }
}

/// Appends the error of one entry of `job`'s needs, if it has one.
fn check_need(jobs: &Value, job: &str, need: &Value, state: &mut ValidationState)
    ensures
        final(state)@.errors == old(state)@.errors + need_errors(json_of(*jobs), job@, json_of(*need)),
        final(state)@.action_type == old(state)@.action_type,
        final(state)@.file_path == old(state)@.file_path,
{
    match as_str(need) {
        Some(name) => {
            if lookup(jobs, name).is_none() {
                state.push_error(ValidationError::unresolved_job(job, name));
            }
        },
        None => {},
    }
}

/// Checks that every job named in a `needs` is a job of the workflow.
///
/// For each job, in the order of the `jobs` object, and for each name in its
/// `needs`, in their order, appends one error where no job has that name.
/// Entries of a `needs` list that are no strings are passed over.
pub fn validate_job_needs(doc: &Value, state: &mut ValidationState)
    ensures
        final(state)@.errors == old(state)@.errors + job_errors(json_of(*doc)),
        final(state)@.action_type == old(state)@.action_type,
        final(state)@.file_path == old(state)@.file_path,
{
    let jobs = match lookup(doc, "jobs") {
        Some(jobs) => jobs,
        None => {
            assert(Json::Null.entries().len() == 0);
            return ;
        },
    };
    let list = match entries(jobs) {
        Some(list) => list,
        None => {
            return ;
        },
    };
    let ghost base = state@.errors;
    let ghost all = json_of(*jobs);
    let mut i: usize = 0;
    while i < list.len()
        invariant
            all == json_of(*jobs),
            all.entries() == entries_json(list@),
            i <= list.len(),
            state@.errors == base + jobs_errors(all, i as int),
            state@.action_type == old(state)@.action_type,
            state@.file_path == old(state)@.file_path,
        decreases list.len() - i,
    {
        let name: &str = list[i].0.as_str();
        let job: &Value = list[i].1;
        assert(all.entries()[i as int] == (name@, json_of(*job)));
        let ghost before = state@.errors;
        match lookup(job, "needs") {
            None => {},
            Some(needs) => {
                match as_array(needs) {
                    Some(items) => {
                        let mut k: usize = 0;
                        while k < items.len()
                            invariant
                                all == json_of(*jobs),
                                k <= items.len(),
                                state@.errors == before + list_errors(all, name@, values_json(items@), k as int),
                                state@.action_type == old(state)@.action_type,
                                state@.file_path == old(state)@.file_path,
                            decreases items.len() - k,
                        {
                            check_need(jobs, name, &items[k], state);
                            k = k + 1;
                        }
                    },
                    None => {
                        check_need(jobs, name, needs, state);
                    },
                }
            },
        }
        assert(state@.errors == before + needs_errors(all, name@, json_of(*job).member("needs"@)));
        i = i + 1;
    }
}

} // verus!
