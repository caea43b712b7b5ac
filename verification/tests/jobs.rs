use action_validator::{load, validate_job_needs, ValidationError, ValidationState};

fn fresh() -> ValidationState {
    ValidationState { action_type: None, file_path: None, errors: Vec::new() }
}

fn check(yaml: &str) -> ValidationState {
    let doc = load(yaml).unwrap();
    let mut state = fresh();
    validate_job_needs(&doc, &mut state);
    state
}

fn unresolved(e: &ValidationError) -> (String, String, String, Option<String>) {
    match e {
        ValidationError::UnresolvedJobError { meta } => {
            (meta.code.clone(), meta.path.clone(), meta.title.clone(), meta.detail.clone())
        }
        other => panic!("not an unresolved job: {:?}", other),
    }
}

#[test]
fn one_missing_job_in_a_list_is_reported_once() {
    let state = check("jobs:\n  a: {}\n  b:\n    needs: a\n  c:\n    needs: [a, z]\n");
    assert_eq!(state.errors.len(), 1);
    let (code, path, title, detail) = unresolved(&state.errors[0]);
    assert_eq!(code, "unresolved_job");
    assert_eq!(path, "/jobs/c/needs");
    assert_eq!(title, "Unresolved job");
    assert_eq!(detail, Some("unresolved job z".to_string()));
}

#[test]
fn a_single_missing_need_is_reported() {
    let state = check("jobs:\n  build:\n    needs: test\n");
    assert_eq!(state.errors.len(), 1);
    let (_, path, _, detail) = unresolved(&state.errors[0]);
    assert_eq!(path, "/jobs/build/needs");
    assert_eq!(detail, Some("unresolved job test".to_string()));
}

#[test]
fn resolvable_needs_give_no_error() {
    let state = check("jobs:\n  a: {}\n  b:\n    needs: a\n  c:\n    needs: [a, b]\n");
    assert!(state.errors.is_empty());
    assert!(state.is_valid());
}

#[test]
fn a_cycle_of_needs_is_accepted() {
    let state = check("jobs:\n  a:\n    needs: b\n  b:\n    needs: a\n");
    assert!(state.errors.is_empty());
}

#[test]
fn entries_that_are_no_strings_are_passed_over() {
    let state = check("jobs:\n  a:\n    needs: [1, null, true, [x], {y: z}, missing]\n");
    assert_eq!(state.errors.len(), 1);
    let (_, path, _, detail) = unresolved(&state.errors[0]);
    assert_eq!(path, "/jobs/a/needs");
    assert_eq!(detail, Some("unresolved job missing".to_string()));
}

#[test]
fn needs_of_another_type_ask_for_nothing() {
    assert!(check("jobs:\n  a:\n    needs: 3\n  b:\n    needs: {c: d}\n  e:\n    needs: null\n").errors.is_empty());
}

#[test]
fn a_job_that_is_no_object_has_no_needs() {
    assert!(check("jobs:\n  a: hello\n  b: [needs, z]\n  c: null\n").errors.is_empty());
}

#[test]
fn a_job_with_a_null_body_still_counts_as_a_job() {
    assert!(check("jobs:\n  a: null\n  b:\n    needs: a\n").errors.is_empty());
}

#[test]
fn a_document_without_jobs_has_no_job_errors() {
    assert!(check("name: x\n").errors.is_empty());
    assert!(check("jobs: [a, b]\n").errors.is_empty());
    assert!(check("jobs: nothing\n").errors.is_empty());
    assert!(check("[1, 2]\n").errors.is_empty());
}

#[test]
fn errors_come_in_the_order_of_the_jobs_and_of_their_needs() {
    let state = check("jobs:\n  b:\n    needs: [y, x]\n  a:\n    needs: [q, b, p]\n");
    let got: Vec<(String, Option<String>)> =
        state.errors.iter().map(|e| { let (_, path, _, detail) = unresolved(e); (path, detail) }).collect();
    let doc = load("jobs:\n  b: 1\n  a: 2\n").unwrap();
    let first = doc["jobs"].as_object().unwrap().keys().next().unwrap().clone();
    let of_a = vec![
        ("/jobs/a/needs".to_string(), Some("unresolved job q".to_string())),
        ("/jobs/a/needs".to_string(), Some("unresolved job p".to_string())),
    ];
    let of_b = vec![
        ("/jobs/b/needs".to_string(), Some("unresolved job y".to_string())),
        ("/jobs/b/needs".to_string(), Some("unresolved job x".to_string())),
    ];
    let mut want = Vec::new();
    if first == "a" {
        want.extend(of_a);
        want.extend(of_b);
    } else {
        want.extend(of_b);
        want.extend(of_a);
    }
    assert_eq!(got, want);
}

#[test]
fn the_same_missing_job_is_reported_each_time_it_is_needed() {
    let state = check("jobs:\n  a:\n    needs: [z, z]\n");
    assert_eq!(state.errors.len(), 2);
}

#[test]
fn job_errors_are_appended_and_the_rest_is_kept() {
    let doc = load("jobs:\n  a:\n    needs: z\n").unwrap();
    let mut state = ValidationState {
        action_type: Some(action_validator::ActionType::Workflow),
        file_path: Some("w.yml".to_string()),
        errors: vec![ValidationError::parse_error("kept".to_string(), None)],
    };
    validate_job_needs(&doc, &mut state);
    assert_eq!(state.errors.len(), 2);
    assert!(matches!(state.errors[0], ValidationError::ParseError { .. }));
    assert!(matches!(state.errors[1], ValidationError::UnresolvedJobError { .. }));
    assert_eq!(state.action_type, Some(action_validator::ActionType::Workflow));
    assert_eq!(state.file_path, Some("w.yml".to_string()));
}

#[test]
fn the_job_name_stands_in_the_path_as_it_is_written() {
    let state = check("jobs:\n  \"a/b c\":\n    needs: \"x y\"\n");
    let (_, path, _, detail) = unresolved(&state.errors[0]);
    assert_eq!(path, "/jobs/a/b c/needs");
    assert_eq!(detail, Some("unresolved job x y".to_string()));
}
