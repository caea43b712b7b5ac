use action_validator::{
    load, validate_as_action, validate_as_workflow, validate_with_schema, SchemaLoadError, Schemas,
    ValidationError, ValidationErrorMetadata, ValidationState,
};

fn checked(yaml: &str, schema: &str) -> ValidationState {
    validate_with_schema(&load(yaml).unwrap(), schema).unwrap()
}

fn engine_state(yaml: &str, schema: &str) -> valico::json_schema::ValidationState {
    let doc = load(yaml).unwrap();
    let mut scope = valico::json_schema::Scope::new();
    let compiled = scope.compile_and_return(serde_json::from_str(schema).unwrap(), false).unwrap();
    compiled.validate(&doc)
}

fn parts(meta: &ValidationErrorMetadata) -> (String, String, String, Option<String>) {
    (meta.code.clone(), meta.path.clone(), meta.title.clone(), meta.detail.clone())
}

#[test]
fn a_conforming_document_has_no_schema_error() {
    let state = checked("name: x\n", "{\"type\": \"object\", \"required\": [\"name\"]}");
    assert!(state.errors.is_empty());
    assert!(state.is_valid());
    assert_eq!(state.action_type, None);
    assert_eq!(state.file_path, None);
}

#[test]
fn a_missing_property_is_a_required_error() {
    let state = checked("other: x\n", "{\"type\": \"object\", \"required\": [\"name\"]}");
    assert_eq!(state.errors.len(), 1);
    assert!(!state.is_valid());
    match &state.errors[0] {
        ValidationError::RequiredSchemaError { meta } => {
            assert_eq!(
                parts(meta),
                ("required".to_string(), "/name".to_string(), "This property is required".to_string(), None)
            );
        }
        other => panic!("{:?}", other),
    }
}

#[test]
fn a_value_of_the_wrong_type_is_a_wrong_type_error_with_detail() {
    let state = checked("name: 3\n", "{\"properties\": {\"name\": {\"type\": \"string\"}}}");
    assert_eq!(state.errors.len(), 1);
    match &state.errors[0] {
        ValidationError::WrongTypeSchemaError { meta } => {
            assert_eq!(meta.code, "wrong_type");
            assert_eq!(meta.path, "/name");
            assert_eq!(meta.title, "Type of the value is wrong");
            assert_eq!(meta.detail, Some("The value must be string".to_string()));
        }
        other => panic!("{:?}", other),
    }
}

#[test]
fn every_violation_of_one_pass_is_collected() {
    let state = checked(
        "a: 1\nb: 2\n",
        "{\"properties\": {\"a\": {\"type\": \"string\"}, \"b\": {\"type\": \"string\"}}}",
    );
    assert_eq!(state.errors.len(), 2);
    let mut paths: Vec<String> = state
        .errors
        .iter()
        .map(|e| match e {
            ValidationError::WrongTypeSchemaError { meta } => meta.path.clone(),
            other => panic!("{:?}", other),
        })
        .collect();
    paths.sort();
    assert_eq!(paths, vec!["/a".to_string(), "/b".to_string()]);
}

#[test]
fn the_state_has_one_error_for_each_of_the_engine_in_its_order() {
    let report = engine_state(
        "a: 1\nb: toolong\nc: [1, 1]\n",
        "{\"properties\": {\"a\": {\"enum\": [2]}, \"b\": {\"maxLength\": 2}, \"c\": {\"uniqueItems\": true}}}",
    );
    let state = ValidationState::from_engine(&report);
    assert_eq!(state.errors.len(), report.errors.len());
    assert_eq!(state.errors.len(), 3);
    for (ours, theirs) in state.errors.iter().zip(report.errors.iter()) {
        let meta = match ours {
            ValidationError::EnumSchemaError { meta } => {
                assert_eq!(theirs.get_code(), "enum");
                meta
            }
            ValidationError::MaxLengthSchemaError { meta } => {
                assert_eq!(theirs.get_code(), "max_length");
                meta
            }
            ValidationError::UniqueItemsSchemaError { meta } => {
                assert_eq!(theirs.get_code(), "unique_items");
                meta
            }
            other => panic!("{:?}", other),
        };
        assert_eq!(meta.code, theirs.get_code());
        assert_eq!(meta.path, theirs.get_path());
        assert_eq!(meta.title, theirs.get_title());
        assert_eq!(meta.detail, theirs.get_detail().map(|s| s.to_string()));
    }
}

#[test]
fn one_error_of_the_engine_is_taken_by_its_index() {
    let report = engine_state("a: 1\n", "{\"properties\": {\"a\": {\"minimum\": 5}}}");
    assert_eq!(report.errors.len(), 1);
    match ValidationError::from_engine(&report, 0) {
        Some(ValidationError::MinimumSchemaError { meta }) => {
            assert_eq!(
                parts(&meta),
                ("minimum".to_string(), "/a".to_string(), "Minimum condition is not met".to_string(), None)
            );
        }
        other => panic!("{:?}", other),
    }
    assert!(ValidationError::from_engine(&report, 1).is_none());
    assert!(ValidationError::from_engine(&report, usize::MAX).is_none());
}

#[test]
fn a_failed_any_of_keeps_one_state_per_branch() {
    let state = checked(
        "{}\n",
        "{\"anyOf\": [{\"type\": \"string\"}, {\"type\": \"object\", \"required\": [\"x\"]}]}",
    );
    assert_eq!(state.errors.len(), 1);
    match &state.errors[0] {
        ValidationError::AnyOfSchemaError { states, meta } => {
            assert_eq!(parts(meta), ("any_of".to_string(), "".to_string(), "AnyOf conditions are not met".to_string(), None));
            assert_eq!(states.len(), 2);
            assert_eq!(states[0].errors.len(), 1);
            assert!(matches!(states[0].errors[0], ValidationError::WrongTypeSchemaError { .. }));
            assert_eq!(states[1].errors.len(), 1);
            match &states[1].errors[0] {
                ValidationError::RequiredSchemaError { meta } => assert_eq!(meta.path, "/x"),
                other => panic!("{:?}", other),
            }
            assert_eq!(states[0].action_type, None);
            assert_eq!(states[0].file_path, None);
        }
        other => panic!("{:?}", other),
    }
}

#[test]
fn a_failed_one_of_keeps_one_state_per_branch() {
    let state = checked(
        "v: 5\n",
        "{\"properties\": {\"v\": {\"oneOf\": [{\"type\": \"string\"}, {\"type\": \"object\", \"required\": [\"x\"]}, {\"type\": \"boolean\"}]}}}",
    );
    assert_eq!(state.errors.len(), 1);
    match &state.errors[0] {
        ValidationError::OneOfSchemaError { states, meta } => {
            assert_eq!(meta.code, "one_of");
            assert_eq!(meta.path, "/v");
            assert_eq!(meta.title, "OneOf conditions are not met");
            assert_eq!(states.len(), 3);
            for branch in states {
                assert_eq!(branch.errors.len(), 1);
                assert!(matches!(branch.errors[0], ValidationError::WrongTypeSchemaError { .. }));
            }
        }
        other => panic!("{:?}", other),
    }
}

#[test]
fn branches_nest_as_deep_as_the_schema() {
    let state = checked(
        "v: 5\n",
        "{\"properties\": {\"v\": {\"anyOf\": [{\"type\": \"string\"}, {\"oneOf\": [{\"type\": \"boolean\"}, {\"type\": \"null\"}]}]}}}",
    );
    match &state.errors[0] {
        ValidationError::AnyOfSchemaError { states, .. } => {
            assert_eq!(states.len(), 2);
            match &states[1].errors[0] {
                ValidationError::OneOfSchemaError { states, .. } => {
                    assert_eq!(states.len(), 2);
                    assert!(matches!(states[0].errors[0], ValidationError::WrongTypeSchemaError { .. }));
                    assert!(matches!(states[1].errors[0], ValidationError::WrongTypeSchemaError { .. }));
                }
                other => panic!("{:?}", other),
            }
        }
        other => panic!("{:?}", other),
    }
}

#[test]
fn a_schema_that_is_not_json_is_refused() {
    let doc = load("a: 1\n").unwrap();
    assert_eq!(validate_with_schema(&doc, "{not json").err(), Some(SchemaLoadError::NotJson));
    assert_eq!(validate_with_schema(&doc, "").err(), Some(SchemaLoadError::NotJson));
}

#[test]
fn a_schema_that_the_engine_refuses_is_reported_as_such() {
    let doc = load("a: 1\n").unwrap();
    assert_eq!(validate_with_schema(&doc, "5").err(), Some(SchemaLoadError::Rejected));
    assert_eq!(validate_with_schema(&doc, "{\"minimum\": \"x\"}").err(), Some(SchemaLoadError::Rejected));
}

#[test]
fn each_kind_is_checked_against_its_own_schema() {
    let schemas = Schemas {
        action: "{\"required\": [\"runs\"]}".to_string(),
        workflow: "{\"required\": [\"jobs\"]}".to_string(),
    };
    let doc = load("runs: x\n").unwrap();
    assert!(validate_as_action(&doc, &schemas).unwrap().is_valid());
    let state = validate_as_workflow(&doc, &schemas).unwrap();
    assert_eq!(state.errors.len(), 1);
    match &state.errors[0] {
        ValidationError::RequiredSchemaError { meta } => assert_eq!(meta.path, "/jobs"),
        other => panic!("{:?}", other),
    }
    let doc = load("jobs: {}\n").unwrap();
    assert!(validate_as_workflow(&doc, &schemas).unwrap().is_valid());
    assert!(!validate_as_action(&doc, &schemas).unwrap().is_valid());
}

#[test]
fn the_rules_of_the_engine_map_to_their_own_variants() {
    let cases: Vec<(&str, &str, &str)> = vec![
        ("v: 3\n", "{\"properties\": {\"v\": {\"multipleOf\": 2}}}", "multiple_of"),
        ("v: 3\n", "{\"properties\": {\"v\": {\"maximum\": 2}}}", "maximum"),
        ("v: 3\n", "{\"properties\": {\"v\": {\"minimum\": 4}}}", "minimum"),
        ("v: abc\n", "{\"properties\": {\"v\": {\"maxLength\": 2}}}", "max_length"),
        ("v: abc\n", "{\"properties\": {\"v\": {\"minLength\": 4}}}", "min_length"),
        ("v: abc\n", "{\"properties\": {\"v\": {\"pattern\": \"^x\"}}}", "pattern"),
        ("v: [1, 2]\n", "{\"properties\": {\"v\": {\"maxItems\": 1}}}", "max_items"),
        ("v: [1, 2]\n", "{\"properties\": {\"v\": {\"minItems\": 3}}}", "min_items"),
        ("v: [1, 1]\n", "{\"properties\": {\"v\": {\"uniqueItems\": true}}}", "unique_items"),
        ("v: [1, 2]\n", "{\"properties\": {\"v\": {\"items\": [{}], \"additionalItems\": false}}}", "items"),
        ("v: {a: 1, b: 2}\n", "{\"properties\": {\"v\": {\"maxProperties\": 1}}}", "max_properties"),
        ("v: {a: 1}\n", "{\"properties\": {\"v\": {\"minProperties\": 2}}}", "min_properties"),
        ("v: {a: 1}\n", "{\"properties\": {\"v\": {\"required\": [\"b\"]}}}", "required"),
        ("v: {a: 1}\n", "{\"properties\": {\"v\": {\"additionalProperties\": false}}}", "properties"),
        ("v: 3\n", "{\"properties\": {\"v\": {\"enum\": [1, 2]}}}", "enum"),
        ("v: 3\n", "{\"properties\": {\"v\": {\"const\": 4}}}", "const"),
        ("v: [1, 2]\n", "{\"properties\": {\"v\": {\"contains\": {\"type\": \"string\"}}}}", "contains"),
        ("v: 3\n", "{\"properties\": {\"v\": {\"not\": {\"type\": \"number\"}}}}", "not"),
        ("v: nope\n", "{\"properties\": {\"v\": {\"format\": \"ipv4\"}}}", "format"),
    ];
    for (yaml, schema, code) in cases {
        let state = checked(yaml, schema);
        assert_eq!(state.errors.len(), 1, "{}", code);
        let (got, ok) = match &state.errors[0] {
            ValidationError::MultipleOfSchemaError { meta } => (meta.code.clone(), code == "multiple_of"),
            ValidationError::MaximumSchemaError { meta } => (meta.code.clone(), code == "maximum"),
            ValidationError::MinimumSchemaError { meta } => (meta.code.clone(), code == "minimum"),
            ValidationError::MaxLengthSchemaError { meta } => (meta.code.clone(), code == "max_length"),
            ValidationError::MinLengthSchemaError { meta } => (meta.code.clone(), code == "min_length"),
            ValidationError::PatternSchemaError { meta } => (meta.code.clone(), code == "pattern"),
            ValidationError::MaxItemsSchemaError { meta } => (meta.code.clone(), code == "max_items"),
            ValidationError::MinItemsSchemaError { meta } => (meta.code.clone(), code == "min_items"),
            ValidationError::UniqueItemsSchemaError { meta } => (meta.code.clone(), code == "unique_items"),
            ValidationError::ItemsSchemaError { meta } => (meta.code.clone(), code == "items"),
            ValidationError::MaxPropertiesSchemaError { meta } => (meta.code.clone(), code == "max_properties"),
            ValidationError::MinPropertiesSchemaError { meta } => (meta.code.clone(), code == "min_properties"),
            ValidationError::RequiredSchemaError { meta } => (meta.code.clone(), code == "required"),
            ValidationError::PropertiesSchemaError { meta } => (meta.code.clone(), code == "properties"),
            ValidationError::EnumSchemaError { meta } => (meta.code.clone(), code == "enum"),
            ValidationError::ConstSchemaError { meta } => (meta.code.clone(), code == "const"),
            ValidationError::ContainsSchemaError { meta } => (meta.code.clone(), code == "contains"),
            ValidationError::NotSchemaError { meta } => (meta.code.clone(), code == "not"),
            ValidationError::FormatSchemaError { meta } => (meta.code.clone(), code == "format"),
            other => panic!("{}: {:?}", code, other),
        };
        assert_eq!(got, code);
        assert!(ok, "{}", code);
    }
}
