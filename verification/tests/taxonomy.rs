use action_validator::{
    kind_notice, notices, ActionType, CliConfig, Config, ErrorKind, NoticeLevel, JsConfig, ParseErrorMetadata, ValidationError,
    ValidationErrorMetadata, ValidationState,
};

fn meta(code: &str) -> ValidationErrorMetadata {
    ValidationErrorMetadata {
        code: code.to_string(),
        path: "/p".to_string(),
        title: "t".to_string(),
        detail: Some("d".to_string()),
    }
}

fn empty_state() -> ValidationState {
    ValidationState { action_type: None, file_path: None, errors: Vec::new() }
}

#[test]
fn every_code_of_the_engine_names_its_kind() {
    let table = [
        ("wrong_type", ErrorKind::WrongType),
        ("multiple_of", ErrorKind::MultipleOf),
        ("maximum", ErrorKind::Maximum),
        ("minimum", ErrorKind::Minimum),
        ("max_length", ErrorKind::MaxLength),
        ("min_length", ErrorKind::MinLength),
        ("pattern", ErrorKind::Pattern),
        ("max_items", ErrorKind::MaxItems),
        ("min_items", ErrorKind::MinItems),
        ("unique_items", ErrorKind::UniqueItems),
        ("items", ErrorKind::Items),
        ("max_properties", ErrorKind::MaxProperties),
        ("min_properties", ErrorKind::MinProperties),
        ("required", ErrorKind::Required),
        ("properties", ErrorKind::Properties),
        ("enum", ErrorKind::Enum),
        ("any_of", ErrorKind::AnyOf),
        ("one_of", ErrorKind::OneOf),
        ("const", ErrorKind::Const),
        ("contains", ErrorKind::Contains),
        ("min_contains/max_contains", ErrorKind::ContainsMinMax),
        ("not", ErrorKind::Not),
        ("default", ErrorKind::DivergentDefaults),
        ("format", ErrorKind::Format),
        ("unevaluated", ErrorKind::Unevaluated),
    ];
    for (code, kind) in table {
        assert_eq!(ErrorKind::from_code(code), kind, "{}", code);
    }
}

#[test]
fn a_code_outside_the_vocabulary_is_unknown() {
    for code in ["", "Wrong_Type", "wrong_type ", "unresolved_job", "invalid_glob", "glob_not_matched", "parse_error", "brand_new_rule"] {
        assert_eq!(ErrorKind::from_code(code), ErrorKind::Unknown, "{}", code);
    }
}

#[test]
fn an_unknown_kind_keeps_its_metadata() {
    match ValidationError::from_kind(ErrorKind::from_code("brand_new_rule"), meta("brand_new_rule"), Vec::new()) {
        ValidationError::UnknownSchemaError { meta } => {
            assert_eq!(meta.code, "brand_new_rule");
            assert_eq!(meta.path, "/p");
            assert_eq!(meta.title, "t");
            assert_eq!(meta.detail, Some("d".to_string()));
        }
        other => panic!("{:?}", other),
    }
}

#[test]
fn only_the_combinators_have_branches() {
    assert!(ErrorKind::AnyOf.has_branches());
    assert!(ErrorKind::OneOf.has_branches());
    for kind in [ErrorKind::WrongType, ErrorKind::Not, ErrorKind::Unknown, ErrorKind::UnresolvedJob, ErrorKind::Format] {
        assert!(!kind.has_branches());
    }
}

#[test]
fn a_combinator_keeps_the_states_it_is_given() {
    match ValidationError::from_kind(ErrorKind::AnyOf, meta("any_of"), vec![empty_state(), empty_state()]) {
        ValidationError::AnyOfSchemaError { states, meta } => {
            assert_eq!(states.len(), 2);
            assert_eq!(meta.code, "any_of");
        }
        other => panic!("{:?}", other),
    }
    match ValidationError::from_kind(ErrorKind::OneOf, meta("one_of"), vec![empty_state()]) {
        ValidationError::OneOfSchemaError { states, .. } => assert_eq!(states.len(), 1),
        other => panic!("{:?}", other),
    }
}

#[test]
fn each_kind_builds_its_own_variant() {
    assert!(matches!(
        ValidationError::from_kind(ErrorKind::WrongType, meta("wrong_type"), vec![empty_state()]),
        ValidationError::WrongTypeSchemaError { .. }
    ));
    assert!(matches!(
        ValidationError::from_kind(ErrorKind::ContainsMinMax, meta("x"), Vec::new()),
        ValidationError::ContainsMinMaxSchemaError { .. }
    ));
    assert!(matches!(
        ValidationError::from_kind(ErrorKind::DivergentDefaults, meta("x"), Vec::new()),
        ValidationError::DivergentDefaultsSchemaError { .. }
    ));
    assert!(matches!(
        ValidationError::from_kind(ErrorKind::Unevaluated, meta("x"), Vec::new()),
        ValidationError::UnevaluatedSchemaError { .. }
    ));
    assert!(matches!(
        ValidationError::from_kind(ErrorKind::UnresolvedJob, meta("x"), Vec::new()),
        ValidationError::UnresolvedJobError { .. }
    ));
    assert!(matches!(
        ValidationError::from_kind(ErrorKind::InvalidGlob, meta("x"), Vec::new()),
        ValidationError::InvalidGlobError { .. }
    ));
    assert!(matches!(
        ValidationError::from_kind(ErrorKind::NoFilesMatchingGlob, meta("x"), Vec::new()),
        ValidationError::NoFilesMatchingGlobError { .. }
    ));
}

#[test]
fn the_semantic_errors_have_their_exact_texts() {
    match ValidationError::unresolved_job("deploy", "build") {
        ValidationError::UnresolvedJobError { meta } => {
            assert_eq!(meta.code, "unresolved_job");
            assert_eq!(meta.path, "/jobs/deploy/needs");
            assert_eq!(meta.title, "Unresolved job");
            assert_eq!(meta.detail, Some("unresolved job build".to_string()));
        }
        other => panic!("{:?}", other),
    }
    match ValidationError::invalid_glob("/on/push/paths", "\"[\"", "why") {
        ValidationError::InvalidGlobError { meta } => {
            assert_eq!(meta.code, "invalid_glob");
            assert_eq!(meta.path, "/on/push/paths");
            assert_eq!(meta.title, "Glob does not match any files");
            assert_eq!(meta.detail, Some("Glob \"[\" in /on/push/paths is invalid: why".to_string()));
        }
        other => panic!("{:?}", other),
    }
    match ValidationError::no_files_matching_glob("/on/push/paths", "\"*.x\"") {
        ValidationError::NoFilesMatchingGlobError { meta } => {
            assert_eq!(meta.code, "glob_not_matched");
            assert_eq!(meta.path, "/on/push/paths");
            assert_eq!(meta.title, "Glob does not match any files");
            assert_eq!(meta.detail, Some("Glob \"*.x\" in /on/push/paths does not match any files".to_string()));
        }
        other => panic!("{:?}", other),
    }
}

#[test]
fn a_parse_error_has_the_fixed_code_and_title() {
    let m = ParseErrorMetadata::new("boom".to_string(), None);
    assert_eq!(m.code, "parse_error");
    assert_eq!(m.title, "Parse Error");
    assert_eq!(m.detail, "boom");
    assert!(m.location.is_none());
    match ValidationError::parse_error("boom".to_string(), None) {
        ValidationError::ParseError { meta } => assert_eq!(meta.detail, "boom"),
        other => panic!("{:?}", other),
    }
}

#[test]
fn a_state_is_valid_exactly_when_it_has_no_error() {
    let mut state = empty_state();
    assert!(state.is_valid());
    state.push_error(ValidationError::unresolved_job("a", "b"));
    assert!(!state.is_valid());
    assert_eq!(state.errors.len(), 1);
}

#[test]
fn the_file_name_selects_the_kind() {
    assert_eq!(ActionType::from_file_name(Some("action.yml")), ActionType::Action);
    assert_eq!(ActionType::from_file_name(Some("action.yaml")), ActionType::Action);
    assert_eq!(ActionType::from_file_name(Some("ci.yml")), ActionType::Workflow);
    assert_eq!(ActionType::from_file_name(Some("Action.yml")), ActionType::Workflow);
    assert_eq!(ActionType::from_file_name(Some("action.yml.bak")), ActionType::Workflow);
    assert_eq!(ActionType::from_file_name(Some("")), ActionType::Workflow);
    assert_eq!(ActionType::from_file_name(None), ActionType::Workflow);
}

#[test]
fn a_request_for_a_file_takes_its_kind_from_the_name() {
    let loud = CliConfig { verbose: true, src: std::path::PathBuf::from("dir/action.yml") };
    let quiet = CliConfig { verbose: false, src: std::path::PathBuf::from(".github/workflows/ci.yml") };
    let c = Config::for_file(&loud, Some("dir/action.yml"), Some("action.yml"), "text");
    assert_eq!(c.action_type, ActionType::Action);
    assert_eq!(c.file_path, Some("dir/action.yml"));
    assert_eq!(c.file_name, Some("action.yml"));
    assert_eq!(c.src, "text");
    assert!(c.verbose);
    assert_eq!(c.display_name(), "action.yml");
    let c = Config::for_file(&quiet, Some(".github/workflows/ci.yml"), Some("ci.yml"), "");
    assert_eq!(c.action_type, ActionType::Workflow);
    assert!(!c.verbose);
    let c = Config::for_file(&quiet, None, None, "");
    assert_eq!(c.action_type, ActionType::Workflow);
    assert_eq!(c.display_name(), "file");
}

#[test]
fn a_request_of_a_host_keeps_the_declared_kind() {
    let js = JsConfig { action_type: ActionType::Action, src: "a: b", verbose: false };
    let c = Config::from_js(&js);
    assert_eq!(c.action_type, ActionType::Action);
    assert_eq!(c.src, "a: b");
    assert_eq!(c.file_path, None);
    assert_eq!(c.file_name, None);
    assert!(!c.verbose);
    assert_eq!(c.display_name(), "file");
}

#[test]
fn the_notice_names_the_document_and_its_kind() {
    assert_eq!(kind_notice("action.yml", ActionType::Action), "Treating action.yml as an Action definition");
    assert_eq!(kind_notice("ci.yml", ActionType::Workflow), "Treating ci.yml as a Workflow definition");
    assert_eq!(kind_notice("file", ActionType::Workflow), "Treating file as a Workflow definition");
}

fn said(config: &Config, resolving: bool) -> Vec<(NoticeLevel, String)> {
    notices(config, resolving).into_iter().map(|n| (n.level, n.text)).collect()
}

#[test]
fn a_verbose_run_says_which_kind_it_takes_the_document_for() {
    let src = "on:\n  push:\n    paths: [a]\n";
    let loud = Config { file_path: Some("p/ci.yml"), file_name: Some("ci.yml"), action_type: ActionType::Workflow, src, verbose: true };
    assert_eq!(said(&loud, true), vec![(NoticeLevel::Log, "Treating ci.yml as a Workflow definition".to_string())]);
    let quiet = Config { verbose: false, ..loud };
    assert!(said(&quiet, true).is_empty());
    let nameless = Config { file_path: None, file_name: None, action_type: ActionType::Action, src, verbose: true };
    assert_eq!(said(&nameless, true), vec![(NoticeLevel::Log, "Treating file as an Action definition".to_string())]);
    assert_eq!(said(&nameless, false), vec![(NoticeLevel::Log, "Treating file as an Action definition".to_string())]);
}

#[test]
fn a_run_that_resolves_no_globs_warns_once_for_each_filter() {
    let src = "on:\n  pull_request:\n    paths-ignore: [x, y]\n  push:\n    paths: [a]\n    paths-ignore: null\n";
    let config = Config { file_path: None, file_name: None, action_type: ActionType::Workflow, src, verbose: true };
    assert_eq!(
        said(&config, false),
        vec![
            (NoticeLevel::Log, "Treating file as a Workflow definition".to_string()),
            (
                NoticeLevel::Warn,
                "WARNING: Glob validation is not yet supported. Glob at /on/push/paths will not be validated."
                    .to_string()
            ),
            (
                NoticeLevel::Warn,
                "WARNING: Glob validation is not yet supported. Glob at /on/pull_request/paths-ignore will not be validated."
                    .to_string()
            ),
        ]
    );
    let quiet = Config { verbose: false, ..config };
    assert_eq!(said(&quiet, false).len(), 2);
    assert!(said(&quiet, true).is_empty());
}

#[test]
fn text_that_does_not_parse_has_no_notice() {
    let config = Config { file_path: None, file_name: None, action_type: ActionType::Workflow, src: "a: [b\n", verbose: true };
    assert!(said(&config, false).is_empty());
    assert!(said(&config, true).is_empty());
}

#[test]
fn an_error_knows_the_kind_of_its_rule() {
    assert_eq!(ValidationError::unresolved_job("a", "b").kind(), Some(ErrorKind::UnresolvedJob));
    assert_eq!(ValidationError::invalid_glob("/p", "\"x\"", "m").kind(), Some(ErrorKind::InvalidGlob));
    assert_eq!(ValidationError::no_files_matching_glob("/p", "\"x\"").kind(), Some(ErrorKind::NoFilesMatchingGlob));
    assert_eq!(ValidationError::parse_error("d".to_string(), None).kind(), None);
    for kind in [
        ErrorKind::WrongType,
        ErrorKind::MultipleOf,
        ErrorKind::Maximum,
        ErrorKind::Minimum,
        ErrorKind::MaxLength,
        ErrorKind::MinLength,
        ErrorKind::Pattern,
        ErrorKind::MaxItems,
        ErrorKind::MinItems,
        ErrorKind::UniqueItems,
        ErrorKind::Items,
        ErrorKind::MaxProperties,
        ErrorKind::MinProperties,
        ErrorKind::Required,
        ErrorKind::Properties,
        ErrorKind::Enum,
        ErrorKind::AnyOf,
        ErrorKind::OneOf,
        ErrorKind::Const,
        ErrorKind::Contains,
        ErrorKind::ContainsMinMax,
        ErrorKind::Not,
        ErrorKind::DivergentDefaults,
        ErrorKind::Format,
        ErrorKind::Unevaluated,
        ErrorKind::Unknown,
        ErrorKind::UnresolvedJob,
        ErrorKind::InvalidGlob,
        ErrorKind::NoFilesMatchingGlob,
    ] {
        assert_eq!(ValidationError::from_kind(kind, meta("c"), Vec::new()).kind(), Some(kind));
    }
}
