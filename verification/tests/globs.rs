use action_validator::{
    glob_fields, glob_requests, glob_unsupported_notice, load, validate_globs, validate_paths, GlobOutcome,
    GlobRequest, ValidationError, ValidationState,
};

fn fresh() -> ValidationState {
    ValidationState { action_type: None, file_path: None, errors: Vec::new() }
}

fn resolve(pattern: &str) -> GlobOutcome {
    match glob::glob(pattern) {
        Ok(paths) => GlobOutcome::Matched { count: paths.count() },
        Err(e) => GlobOutcome::Invalid { message: e.to_string() },
    }
}

fn check_on_disk(yaml: &str) -> ValidationState {
    let doc = load(yaml).unwrap();
    let outcomes: Vec<GlobOutcome> = glob_requests(&doc).iter().map(|r| resolve(&r.pattern)).collect();
    let mut state = fresh();
    validate_paths(&doc, &outcomes, &mut state);
    state
}

fn meta_of(e: &ValidationError) -> (&'static str, String, String, String, Option<String>) {
    match e {
        ValidationError::InvalidGlobError { meta } => {
            ("invalid", meta.code.clone(), meta.path.clone(), meta.title.clone(), meta.detail.clone())
        }
        ValidationError::NoFilesMatchingGlobError { meta } => {
            ("unmatched", meta.code.clone(), meta.path.clone(), meta.title.clone(), meta.detail.clone())
        }
        other => panic!("not a glob error: {:?}", other),
    }
}

#[test]
fn a_glob_that_matches_no_file_is_reported() {
    let state = check_on_disk("on:\n  push:\n    paths: [\"no/such/file/*.txt\"]\n");
    assert_eq!(state.errors.len(), 1);
    let (which, code, path, title, detail) = meta_of(&state.errors[0]);
    assert_eq!(which, "unmatched");
    assert_eq!(code, "glob_not_matched");
    assert_eq!(path, "/on/push/paths");
    assert_eq!(title, "Glob does not match any files");
    assert_eq!(
        detail,
        Some("Glob \"no/such/file/*.txt\" in /on/push/paths does not match any files".to_string())
    );
}

#[test]
fn a_malformed_glob_is_reported() {
    let state = check_on_disk("on:\n  push:\n    paths: [\"[unterminated\"]\n");
    assert_eq!(state.errors.len(), 1);
    let (which, code, path, title, detail) = meta_of(&state.errors[0]);
    assert_eq!(which, "invalid");
    assert_eq!(code, "invalid_glob");
    assert_eq!(path, "/on/push/paths");
    assert_eq!(title, "Glob does not match any files");
    assert_eq!(
        detail,
        Some(
            "Glob \"[unterminated\" in /on/push/paths is invalid: Pattern syntax error near position 0: invalid range pattern"
                .to_string()
        )
    );
}

#[test]
fn a_null_or_absent_field_gives_neither_request_nor_error() {
    for yaml in ["on:\n  push:\n    paths: null\n", "on:\n  push: {}\n", "on: push\n", "name: x\n", "on:\n  push:\n    paths: []\n"] {
        let doc = load(yaml).unwrap();
        assert!(glob_requests(&doc).is_empty());
        let mut state = fresh();
        validate_paths(&doc, &vec![], &mut state);
        assert!(state.errors.is_empty());
        assert!(check_on_disk(yaml).errors.is_empty());
    }
}

#[test]
fn a_glob_that_matches_a_file_gives_no_error() {
    let doc = load("on:\n  push:\n    paths: [\"src/**\"]\n").unwrap();
    let mut state = fresh();
    validate_paths(&doc, &vec![GlobOutcome::Matched { count: 1 }], &mut state);
    assert!(state.errors.is_empty());
    let mut state = fresh();
    validate_paths(&doc, &vec![GlobOutcome::Matched { count: 0 }], &mut state);
    assert_eq!(state.errors.len(), 1);
}

#[test]
fn requests_follow_the_four_fields_in_order() {
    let doc = load(
        "on:\n  pull_request:\n    paths-ignore: [d1, d2]\n    paths: [c]\n  push:\n    paths-ignore: [b]\n    paths: [a1, a2]\n",
    )
    .unwrap();
    let got: Vec<(String, String, String)> =
        glob_requests(&doc).into_iter().map(|r| (r.path, r.pattern, r.text)).collect();
    let want: Vec<(String, String, String)> = [
        ("/on/push/paths", "a1", "\"a1\""),
        ("/on/push/paths", "a2", "\"a2\""),
        ("/on/push/paths-ignore", "b", "\"b\""),
        ("/on/pull_request/paths", "c", "\"c\""),
        ("/on/pull_request/paths-ignore", "d1", "\"d1\""),
        ("/on/pull_request/paths-ignore", "d2", "\"d2\""),
    ]
    .iter()
    .map(|(a, b, c)| (a.to_string(), b.to_string(), c.to_string()))
    .collect();
    assert_eq!(got, want);
}

#[test]
fn errors_follow_the_order_of_the_requests() {
    let doc = load("on:\n  pull_request:\n    paths: [c]\n  push:\n    paths-ignore: [b]\n    paths: [a1, a2]\n").unwrap();
    let outcomes = vec![
        GlobOutcome::Matched { count: 0 },
        GlobOutcome::Matched { count: 3 },
        GlobOutcome::Invalid { message: "bad".to_string() },
        GlobOutcome::Matched { count: 0 },
    ];
    let mut state = fresh();
    validate_paths(&doc, &outcomes, &mut state);
    let got: Vec<(&str, String, Option<String>)> =
        state.errors.iter().map(|e| { let (which, _, path, _, detail) = meta_of(e); (which, path, detail) }).collect();
    assert_eq!(
        got,
        vec![
            ("unmatched", "/on/push/paths".to_string(), Some("Glob \"a1\" in /on/push/paths does not match any files".to_string())),
            ("invalid", "/on/push/paths-ignore".to_string(), Some("Glob \"b\" in /on/push/paths-ignore is invalid: bad".to_string())),
            ("unmatched", "/on/pull_request/paths".to_string(), Some("Glob \"c\" in /on/pull_request/paths does not match any files".to_string())),
        ]
    );
}

#[test]
fn a_glob_without_an_outcome_is_left_unchecked() {
    let doc = load("on:\n  push:\n    paths: [a, b, c]\n").unwrap();
    let mut state = fresh();
    validate_paths(&doc, &vec![GlobOutcome::Matched { count: 0 }], &mut state);
    assert_eq!(state.errors.len(), 1);
    let (_, _, _, _, detail) = meta_of(&state.errors[0]);
    assert_eq!(detail, Some("Glob \"a\" in /on/push/paths does not match any files".to_string()));
    let mut state = fresh();
    validate_paths(&doc, &vec![], &mut state);
    assert!(state.errors.is_empty());
}

#[test]
fn outcomes_beyond_the_requests_change_nothing() {
    let requests = vec![GlobRequest { path: "/p".to_string(), pattern: "x".to_string(), text: "\"x\"".to_string() }];
    let outcomes = vec![GlobOutcome::Matched { count: 2 }, GlobOutcome::Matched { count: 0 }];
    let mut state = fresh();
    validate_globs(&requests, &outcomes, &mut state);
    assert!(state.errors.is_empty());
}

#[test]
fn a_field_that_is_no_list_of_strings_is_passed_over() {
    for yaml in [
        "on:\n  push:\n    paths: \"src/**\"\n",
        "on:\n  push:\n    paths: [a, 1]\n",
        "on:\n  push:\n    paths: {a: b}\n",
        "on:\n  push:\n    paths: 7\n",
    ] {
        let doc = load(yaml).unwrap();
        assert!(glob_requests(&doc).is_empty());
        let mut state = fresh();
        validate_paths(&doc, &vec![GlobOutcome::Matched { count: 0 }], &mut state);
        assert!(state.errors.is_empty());
    }
    let doc = load("on:\n  push:\n    paths: [a, 1]\n    paths-ignore: [b]\n").unwrap();
    let requests = glob_requests(&doc);
    assert_eq!(requests.len(), 1);
    assert_eq!(requests[0].path, "/on/push/paths-ignore");
    assert_eq!(requests[0].pattern, "b");
}

#[test]
fn the_pattern_is_shown_as_json_text() {
    let doc = load("on:\n  push:\n    paths: ['a\"b\\c', \"tab\\there\"]\n").unwrap();
    let requests = glob_requests(&doc);
    assert_eq!(requests[0].pattern, "a\"b\\c");
    assert_eq!(requests[0].text, "\"a\\\"b\\\\c\"");
    assert_eq!(requests[1].pattern, "tab\there");
    assert_eq!(requests[1].text, "\"tab\\there\"");
    let mut state = fresh();
    validate_paths(&doc, &vec![GlobOutcome::Matched { count: 0 }], &mut state);
    let (_, _, _, _, detail) = meta_of(&state.errors[0]);
    assert_eq!(detail, Some("Glob \"a\\\"b\\\\c\" in /on/push/paths does not match any files".to_string()));
}

#[test]
fn glob_errors_are_appended_and_the_rest_is_kept() {
    let doc = load("on:\n  push:\n    paths: [a]\n").unwrap();
    let mut state = ValidationState {
        action_type: Some(action_validator::ActionType::Workflow),
        file_path: Some("w.yml".to_string()),
        errors: vec![ValidationError::unresolved_job("a", "b")],
    };
    validate_paths(&doc, &vec![GlobOutcome::Matched { count: 0 }], &mut state);
    assert_eq!(state.errors.len(), 2);
    assert!(matches!(state.errors[0], ValidationError::UnresolvedJobError { .. }));
    assert!(matches!(state.errors[1], ValidationError::NoFilesMatchingGlobError { .. }));
    assert_eq!(state.file_path, Some("w.yml".to_string()));
    assert_eq!(state.action_type, Some(action_validator::ActionType::Workflow));
}

#[test]
fn the_fields_that_are_there_are_listed_for_the_warnings() {
    let doc = load("on:\n  push:\n    paths: [a]\n    paths-ignore: null\n  pull_request:\n    paths-ignore: 3\n").unwrap();
    assert_eq!(glob_fields(&doc), vec!["/on/push/paths".to_string(), "/on/pull_request/paths-ignore".to_string()]);
    let doc = load("on:\n  push:\n    paths: []\n    paths-ignore: []\n  pull_request:\n    paths: x\n    paths-ignore: [y]\n").unwrap();
    assert_eq!(
        glob_fields(&doc),
        vec![
            "/on/push/paths".to_string(),
            "/on/push/paths-ignore".to_string(),
            "/on/pull_request/paths".to_string(),
            "/on/pull_request/paths-ignore".to_string(),
        ]
    );
    assert!(glob_fields(&load("on: push\n").unwrap()).is_empty());
}

#[test]
fn the_warning_names_the_field() {
    assert_eq!(
        glob_unsupported_notice("/on/push/paths"),
        "WARNING: Glob validation is not yet supported. Glob at /on/push/paths will not be validated."
    );
}
