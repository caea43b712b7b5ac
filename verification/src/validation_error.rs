//! The error taxonomy: every way in which a document can fail, under stable codes.

use crate::engine::{engine_errors, error_branches, error_count, EngineError};
use crate::text::text_eq;
use crate::validation_state::{state_of_engine, state_view, StateView, ValidationState};
use valico::json_schema::ValidationState as EngineState;
use vstd::prelude::*;

verus! {

/// Where an error lies and what it is called.
///
/// `code` is the stable, machine-readable name of the rule, `path` a JSON pointer
/// into the document, `title` a short label and `detail` a free explanation.
#[derive(Debug)]
pub struct ValidationErrorMetadata {
    pub code: String,
    pub path: String,
    pub title: String,
    pub detail: Option<String>,
}

/// The mathematical content of a [`ValidationErrorMetadata`].
pub struct MetadataView {
    pub code: Seq<char>,
    pub path: Seq<char>,
    pub title: Seq<char>,
    pub detail: Option<Seq<char>>,
}

impl View for ValidationErrorMetadata {
    type V = MetadataView;

    open spec fn view(&self) -> MetadataView {
        MetadataView {
            code: self.code@,
            path: self.path@,
            title: self.title@,
            detail: match self.detail {
                Some(d) => Some(d@),
                None => None,
            },
        }
    }
}

/// The place in the source text at which parsing stopped.
#[derive(Debug, Clone, Copy)]
pub struct ParseErrorLocation {
    pub index: usize,
    pub line: usize,
    pub column: usize,
}

/// What is known of a document that could not be parsed.
#[derive(Debug)]
pub struct ParseErrorMetadata {
    pub code: String,
    pub title: String,
    pub detail: String,
    pub location: Option<ParseErrorLocation>,
}

/// The mathematical content of a [`ParseErrorMetadata`].
pub struct ParseMetadataView {
    pub code: Seq<char>,
    pub title: Seq<char>,
    pub detail: Seq<char>,
    pub location: Option<ParseErrorLocation>,
}

impl View for ParseErrorMetadata {
    type V = ParseMetadataView;

    open spec fn view(&self) -> ParseMetadataView {
        ParseMetadataView {
            code: self.code@,
            title: self.title@,
            detail: self.detail@,
            location: self.location,
        }
    }
}

/// The rule that an error reports, apart from what it says of the place.
#[derive(Copy, Clone, Debug, PartialEq, Eq, Structural)]
pub enum ErrorKind {
    /// The value has the wrong type.
    WrongType,
    /// The number is not a multiple of the divisor.
    MultipleOf,
    /// The number is above the maximum.
    Maximum,
    /// The number is below the minimum.
    Minimum,
    /// The string is too long.
    MaxLength,
    /// The string is too short.
    MinLength,
    /// The string does not match the pattern.
    Pattern,
    /// The array has too many items.
    MaxItems,
    /// The array has too few items.
    MinItems,
    /// The array holds an item twice.
    UniqueItems,
    /// An item of the array is refused.
    Items,
    /// The object has too many properties.
    MaxProperties,
    /// The object has too few properties.
    MinProperties,
    /// A required property is missing.
    Required,
    /// A property of the object is refused.
    Properties,
    /// The value is none of the listed ones.
    Enum,
    /// No branch of an `anyOf` accepts the value.
    AnyOf,
    /// Not exactly one branch of a `oneOf` accepts the value.
    OneOf,
    /// The value is not the constant.
    Const,
    /// No item of the array is accepted.
    Contains,
    /// Too few or too many items of the array are accepted.
    ContainsMinMax,
    /// The value is accepted by the schema it must not match.
    Not,
    /// Applying the defaults did not settle.
    DivergentDefaults,
    /// The string does not have the format.
    Format,
    /// A property or item that no rule covers is refused.
    Unevaluated,
    /// A rule of the engine that this vocabulary does not know.
    Unknown,
    /// A job needs another that the workflow does not define.
    UnresolvedJob,
    /// A path filter is not a well-formed glob.
    InvalidGlob,
    /// A path filter matches no file.
    NoFilesMatchingGlob,
}

impl ErrorKind {
    /// Whether errors of this kind carry one nested state per branch.
    pub open spec fn is_combinator(self) -> bool {
        self == ErrorKind::AnyOf || self == ErrorKind::OneOf
    }

    /// The kind that the schema engine's code names; a code outside the
    /// vocabulary is [`ErrorKind::Unknown`].
    pub open spec fn of_code(code: Seq<char>) -> ErrorKind {
        if code == "wrong_type"@ {
            ErrorKind::WrongType
        } else if code == "multiple_of"@ {
            ErrorKind::MultipleOf
        } else if code == "maximum"@ {
            ErrorKind::Maximum
        } else if code == "minimum"@ {
            ErrorKind::Minimum
        } else if code == "max_length"@ {
            ErrorKind::MaxLength
        } else if code == "min_length"@ {
            ErrorKind::MinLength
        } else if code == "pattern"@ {
            ErrorKind::Pattern
        } else if code == "max_items"@ {
            ErrorKind::MaxItems
        } else if code == "min_items"@ {
            ErrorKind::MinItems
        } else if code == "unique_items"@ {
            ErrorKind::UniqueItems
        } else if code == "items"@ {
            ErrorKind::Items
        } else if code == "max_properties"@ {
            ErrorKind::MaxProperties
        } else if code == "min_properties"@ {
            ErrorKind::MinProperties
        } else if code == "required"@ {
            ErrorKind::Required
        } else if code == "properties"@ {
            ErrorKind::Properties
        } else if code == "enum"@ {
            ErrorKind::Enum
        } else if code == "any_of"@ {
            ErrorKind::AnyOf
        } else if code == "one_of"@ {
            ErrorKind::OneOf
        } else if code == "const"@ {
            ErrorKind::Const
        } else if code == "contains"@ {
            ErrorKind::Contains
        } else if code == "min_contains/max_contains"@ {
            ErrorKind::ContainsMinMax
        } else if code == "not"@ {
            ErrorKind::Not
        } else if code == "default"@ {
            ErrorKind::DivergentDefaults
        } else if code == "format"@ {
            ErrorKind::Format
        } else if code == "unevaluated"@ {
            ErrorKind::Unevaluated
        } else {
            ErrorKind::Unknown
        }
    }

    /// Looks the engine's code up in the vocabulary.
    pub fn from_code(code: &str) -> (kind: ErrorKind)
        ensures
            kind == ErrorKind::of_code(code@),
    {
        if text_eq(code, "wrong_type") {
            ErrorKind::WrongType
        } else if text_eq(code, "multiple_of") {
            ErrorKind::MultipleOf
        } else if text_eq(code, "maximum") {
            ErrorKind::Maximum
        } else if text_eq(code, "minimum") {
            ErrorKind::Minimum
        } else if text_eq(code, "max_length") {
            ErrorKind::MaxLength
        } else if text_eq(code, "min_length") {
            ErrorKind::MinLength
        } else if text_eq(code, "pattern") {
            ErrorKind::Pattern
        } else if text_eq(code, "max_items") {
            ErrorKind::MaxItems
        } else if text_eq(code, "min_items") {
            ErrorKind::MinItems
        } else if text_eq(code, "unique_items") {
            ErrorKind::UniqueItems
        } else if text_eq(code, "items") {
            ErrorKind::Items
        } else if text_eq(code, "max_properties") {
            ErrorKind::MaxProperties
        } else if text_eq(code, "min_properties") {
            ErrorKind::MinProperties
        } else if text_eq(code, "required") {
            ErrorKind::Required
        } else if text_eq(code, "properties") {
            ErrorKind::Properties
        } else if text_eq(code, "enum") {
            ErrorKind::Enum
        } else if text_eq(code, "any_of") {
            ErrorKind::AnyOf
        } else if text_eq(code, "one_of") {
            ErrorKind::OneOf
        } else if text_eq(code, "const") {
            ErrorKind::Const
        } else if text_eq(code, "contains") {
            ErrorKind::Contains
        } else if text_eq(code, "min_contains/max_contains") {
            ErrorKind::ContainsMinMax
        } else if text_eq(code, "not") {
            ErrorKind::Not
        } else if text_eq(code, "default") {
            ErrorKind::DivergentDefaults
        } else if text_eq(code, "format") {
            ErrorKind::Format
        } else if text_eq(code, "unevaluated") {
            ErrorKind::Unevaluated
        } else {
            ErrorKind::Unknown
        }
    }

    /// Whether errors of this kind carry one nested state per branch.
    pub fn has_branches(self) -> (b: bool)
        ensures
            b == self.is_combinator(),
    {
        match self {
            ErrorKind::AnyOf | ErrorKind::OneOf => true,
            _ => false,
        }
    }
}

/// One violation found in a document.
#[derive(Debug)]
#[allow(inconsistent_fields)]
pub enum ValidationError {
    // Schema Validation Errors
    WrongTypeSchemaError { meta: ValidationErrorMetadata },
    MultipleOfSchemaError { meta: ValidationErrorMetadata },
    MaximumSchemaError { meta: ValidationErrorMetadata },
    MinimumSchemaError { meta: ValidationErrorMetadata },
    MaxLengthSchemaError { meta: ValidationErrorMetadata },
    MinLengthSchemaError { meta: ValidationErrorMetadata },
    PatternSchemaError { meta: ValidationErrorMetadata },
    MaxItemsSchemaError { meta: ValidationErrorMetadata },
    MinItemsSchemaError { meta: ValidationErrorMetadata },
    UniqueItemsSchemaError { meta: ValidationErrorMetadata },
    ItemsSchemaError { meta: ValidationErrorMetadata },
    MaxPropertiesSchemaError { meta: ValidationErrorMetadata },
    MinPropertiesSchemaError { meta: ValidationErrorMetadata },
    RequiredSchemaError { meta: ValidationErrorMetadata },
    PropertiesSchemaError { meta: ValidationErrorMetadata },
    EnumSchemaError { meta: ValidationErrorMetadata },
    AnyOfSchemaError { states: Vec<ValidationState>, meta: ValidationErrorMetadata },
    OneOfSchemaError { states: Vec<ValidationState>, meta: ValidationErrorMetadata },
    ConstSchemaError { meta: ValidationErrorMetadata },
    ContainsSchemaError { meta: ValidationErrorMetadata },
    ContainsMinMaxSchemaError { meta: ValidationErrorMetadata },
    NotSchemaError { meta: ValidationErrorMetadata },
    DivergentDefaultsSchemaError { meta: ValidationErrorMetadata },
    FormatSchemaError { meta: ValidationErrorMetadata },
    UnevaluatedSchemaError { meta: ValidationErrorMetadata },
    UnknownSchemaError { meta: ValidationErrorMetadata },
    // Other Validation Errors
    UnresolvedJobError { meta: ValidationErrorMetadata },
    InvalidGlobError { meta: ValidationErrorMetadata },
    NoFilesMatchingGlobError { meta: ValidationErrorMetadata },
    // Other Errors
    ParseError { meta: ParseErrorMetadata },
}

/// The mathematical content of a [`ValidationError`].
///
/// `states` holds one state per branch for the two combinator kinds and is
/// empty for every other kind.
#[allow(inconsistent_fields)]
pub enum ErrorView {
    Rule { kind: ErrorKind, meta: MetadataView, states: Seq<StateView> },
    Parse { meta: ParseMetadataView },
}

/// The views of a sequence of states, one for one.
pub open spec fn states_view(states: Seq<ValidationState>) -> Seq<StateView>
    decreases states,
{
    Seq::new(
        states.len(),
        |i: int|
            if 0 <= i < states.len() {
                state_view(states[i])
            } else {
                arbitrary()
            },
    )
}

/// The views of a sequence of errors, one for one.
pub open spec fn errors_view(errors: Seq<ValidationError>) -> Seq<ErrorView>
    decreases errors,
{
    Seq::new(
        errors.len(),
        |i: int|
            if 0 <= i < errors.len() {
                error_view(errors[i])
            } else {
                arbitrary()
            },
    )
}

/// What an error says: its kind, its metadata and, for a combinator, its branches.
pub open spec fn error_view(e: ValidationError) -> ErrorView
    decreases e,
{
    match e {
        ValidationError::WrongTypeSchemaError { meta } => ErrorView::Rule {
            kind: ErrorKind::WrongType,
            meta: meta@,
            states: Seq::empty(),
        },
        ValidationError::MultipleOfSchemaError { meta } => ErrorView::Rule {
            kind: ErrorKind::MultipleOf,
            meta: meta@,
            states: Seq::empty(),
        },
        ValidationError::MaximumSchemaError { meta } => ErrorView::Rule {
            kind: ErrorKind::Maximum,
            meta: meta@,
            states: Seq::empty(),
        },
        ValidationError::MinimumSchemaError { meta } => ErrorView::Rule {
            kind: ErrorKind::Minimum,
            meta: meta@,
            states: Seq::empty(),
        },
        ValidationError::MaxLengthSchemaError { meta } => ErrorView::Rule {
            kind: ErrorKind::MaxLength,
            meta: meta@,
            states: Seq::empty(),
        },
        ValidationError::MinLengthSchemaError { meta } => ErrorView::Rule {
            kind: ErrorKind::MinLength,
            meta: meta@,
            states: Seq::empty(),
        },
        ValidationError::PatternSchemaError { meta } => ErrorView::Rule {
            kind: ErrorKind::Pattern,
            meta: meta@,
            states: Seq::empty(),
        },
        ValidationError::MaxItemsSchemaError { meta } => ErrorView::Rule {
            kind: ErrorKind::MaxItems,
            meta: meta@,
            states: Seq::empty(),
        },
        ValidationError::MinItemsSchemaError { meta } => ErrorView::Rule {
            kind: ErrorKind::MinItems,
            meta: meta@,
            states: Seq::empty(),
        },
        ValidationError::UniqueItemsSchemaError { meta } => ErrorView::Rule {
            kind: ErrorKind::UniqueItems,
            meta: meta@,
            states: Seq::empty(),
        },
        ValidationError::ItemsSchemaError { meta } => ErrorView::Rule {
            kind: ErrorKind::Items,
            meta: meta@,
            states: Seq::empty(),
        },
        ValidationError::MaxPropertiesSchemaError { meta } => ErrorView::Rule {
            kind: ErrorKind::MaxProperties,
            meta: meta@,
            states: Seq::empty(),
        },
        ValidationError::MinPropertiesSchemaError { meta } => ErrorView::Rule {
            kind: ErrorKind::MinProperties,
            meta: meta@,
            states: Seq::empty(),
        },
        ValidationError::RequiredSchemaError { meta } => ErrorView::Rule {
            kind: ErrorKind::Required,
            meta: meta@,
            states: Seq::empty(),
        },
        ValidationError::PropertiesSchemaError { meta } => ErrorView::Rule {
            kind: ErrorKind::Properties,
            meta: meta@,
            states: Seq::empty(),
        },
        ValidationError::EnumSchemaError { meta } => ErrorView::Rule {
            kind: ErrorKind::Enum,
            meta: meta@,
            states: Seq::empty(),
        },
        ValidationError::AnyOfSchemaError { states, meta } => ErrorView::Rule {
            kind: ErrorKind::AnyOf,
            meta: meta@,
            states: states_view(states@),
        },
        ValidationError::OneOfSchemaError { states, meta } => ErrorView::Rule {
            kind: ErrorKind::OneOf,
            meta: meta@,
            states: states_view(states@),
        },
        ValidationError::ConstSchemaError { meta } => ErrorView::Rule {
            kind: ErrorKind::Const,
            meta: meta@,
            states: Seq::empty(),
        },
        ValidationError::ContainsSchemaError { meta } => ErrorView::Rule {
            kind: ErrorKind::Contains,
            meta: meta@,
            states: Seq::empty(),
        },
        ValidationError::ContainsMinMaxSchemaError { meta } => ErrorView::Rule {
            kind: ErrorKind::ContainsMinMax,
            meta: meta@,
            states: Seq::empty(),
        },
        ValidationError::NotSchemaError { meta } => ErrorView::Rule {
            kind: ErrorKind::Not,
            meta: meta@,
            states: Seq::empty(),
        },
        ValidationError::DivergentDefaultsSchemaError { meta } => ErrorView::Rule {
            kind: ErrorKind::DivergentDefaults,
            meta: meta@,
            states: Seq::empty(),
        },
        ValidationError::FormatSchemaError { meta } => ErrorView::Rule {
            kind: ErrorKind::Format,
            meta: meta@,
            states: Seq::empty(),
        },
        ValidationError::UnevaluatedSchemaError { meta } => ErrorView::Rule {
            kind: ErrorKind::Unevaluated,
            meta: meta@,
            states: Seq::empty(),
        },
        ValidationError::UnknownSchemaError { meta } => ErrorView::Rule {
            kind: ErrorKind::Unknown,
            meta: meta@,
            states: Seq::empty(),
        },
        ValidationError::UnresolvedJobError { meta } => ErrorView::Rule {
            kind: ErrorKind::UnresolvedJob,
            meta: meta@,
            states: Seq::empty(),
        },
        ValidationError::InvalidGlobError { meta } => ErrorView::Rule {
            kind: ErrorKind::InvalidGlob,
            meta: meta@,
            states: Seq::empty(),
        },
        ValidationError::NoFilesMatchingGlobError { meta } => ErrorView::Rule {
            kind: ErrorKind::NoFilesMatchingGlob,
            meta: meta@,
            states: Seq::empty(),
        },
        ValidationError::ParseError { meta } => ErrorView::Parse { meta: meta@ },
    }
}

impl View for ValidationError {
    type V = ErrorView;

    open spec fn view(&self) -> ErrorView {
        error_view(*self)
    }
}

/// The view of an error of `kind`: the branches count only for a combinator.
pub open spec fn rule_view(kind: ErrorKind, meta: MetadataView, states: Seq<StateView>) -> ErrorView {
    ErrorView::Rule {
        kind,
        meta,
        states: if kind.is_combinator() {
            states
        } else {
            Seq::empty()
        },
    }
}

/// The states of the branches of an engine's error, one for one.
pub open spec fn branch_states(branches: Seq<Seq<EngineError>>) -> Seq<StateView>
    decreases branches,
{
    Seq::new(
        branches.len(),
        |j: int|
            if 0 <= j < branches.len() {
                state_of_engine(branches[j])
            } else {
                arbitrary()
            },
    )
}

/// The error that stands for one error of the engine: its kind is the one
/// that the engine's code names, its metadata is the engine's, and a
/// combinator keeps one state per branch, each the state of that branch alone.
pub open spec fn error_of_engine(e: EngineError) -> ErrorView
    decreases e,
{
    rule_view(ErrorKind::of_code(e.meta.code), e.meta, branch_states(e.branches))
}

/// Each code of the engine names a kind of its own, and the codes of the
/// semantic checks and of the parse error are no codes of the engine: an
/// error of the engine is never taken for one of them.
pub proof fn lemma_codes_name_their_kinds()
    ensures
        ErrorKind::of_code("wrong_type"@) == ErrorKind::WrongType,
        ErrorKind::of_code("multiple_of"@) == ErrorKind::MultipleOf,
        ErrorKind::of_code("maximum"@) == ErrorKind::Maximum,
        ErrorKind::of_code("minimum"@) == ErrorKind::Minimum,
        ErrorKind::of_code("max_length"@) == ErrorKind::MaxLength,
        ErrorKind::of_code("min_length"@) == ErrorKind::MinLength,
        ErrorKind::of_code("pattern"@) == ErrorKind::Pattern,
        ErrorKind::of_code("max_items"@) == ErrorKind::MaxItems,
        ErrorKind::of_code("min_items"@) == ErrorKind::MinItems,
        ErrorKind::of_code("unique_items"@) == ErrorKind::UniqueItems,
        ErrorKind::of_code("items"@) == ErrorKind::Items,
        ErrorKind::of_code("max_properties"@) == ErrorKind::MaxProperties,
        ErrorKind::of_code("min_properties"@) == ErrorKind::MinProperties,
        ErrorKind::of_code("required"@) == ErrorKind::Required,
        ErrorKind::of_code("properties"@) == ErrorKind::Properties,
        ErrorKind::of_code("enum"@) == ErrorKind::Enum,
        ErrorKind::of_code("any_of"@) == ErrorKind::AnyOf,
        ErrorKind::of_code("one_of"@) == ErrorKind::OneOf,
        ErrorKind::of_code("const"@) == ErrorKind::Const,
        ErrorKind::of_code("contains"@) == ErrorKind::Contains,
        ErrorKind::of_code("min_contains/max_contains"@) == ErrorKind::ContainsMinMax,
        ErrorKind::of_code("not"@) == ErrorKind::Not,
        ErrorKind::of_code("default"@) == ErrorKind::DivergentDefaults,
        ErrorKind::of_code("format"@) == ErrorKind::Format,
        ErrorKind::of_code("unevaluated"@) == ErrorKind::Unevaluated,
        ErrorKind::of_code("unresolved_job"@) == ErrorKind::Unknown,
        ErrorKind::of_code("invalid_glob"@) == ErrorKind::Unknown,
        ErrorKind::of_code("glob_not_matched"@) == ErrorKind::Unknown,
        ErrorKind::of_code("parse_error"@) == ErrorKind::Unknown,
{
    reveal_strlit("wrong_type");
    reveal_strlit("multiple_of");
    reveal_strlit("maximum");
    reveal_strlit("minimum");
    reveal_strlit("max_length");
    reveal_strlit("min_length");
    reveal_strlit("pattern");
    reveal_strlit("max_items");
    reveal_strlit("min_items");
    reveal_strlit("unique_items");
    reveal_strlit("items");
    reveal_strlit("max_properties");
    reveal_strlit("min_properties");
    reveal_strlit("required");
    reveal_strlit("properties");
    reveal_strlit("enum");
    reveal_strlit("any_of");
    reveal_strlit("one_of");
    reveal_strlit("const");
    reveal_strlit("contains");
    reveal_strlit("min_contains/max_contains");
    reveal_strlit("not");
    reveal_strlit("default");
    reveal_strlit("format");
    reveal_strlit("unevaluated");
    reveal_strlit("unresolved_job");
    reveal_strlit("invalid_glob");
    reveal_strlit("glob_not_matched");
    reveal_strlit("parse_error");
    assert("wrong_type"@.len() == 10);
    assert("multiple_of"@.len() == 11);
    assert("maximum"@.len() == 7);
    assert("minimum"@.len() == 7);
    assert("max_length"@.len() == 10);
    assert("min_length"@.len() == 10);
    assert("pattern"@.len() == 7);
    assert("max_items"@.len() == 9);
    assert("min_items"@.len() == 9);
    assert("unique_items"@.len() == 12);
    assert("items"@.len() == 5);
    assert("max_properties"@.len() == 14);
    assert("min_properties"@.len() == 14);
    assert("required"@.len() == 8);
    assert("properties"@.len() == 10);
    assert("enum"@.len() == 4);
    assert("any_of"@.len() == 6);
    assert("one_of"@.len() == 6);
    assert("const"@.len() == 5);
    assert("contains"@.len() == 8);
    assert("min_contains/max_contains"@.len() == 25);
    assert("not"@.len() == 3);
    assert("default"@.len() == 7);
    assert("format"@.len() == 6);
    assert("unevaluated"@.len() == 11);
    assert("unresolved_job"@.len() == 14);
    assert("invalid_glob"@.len() == 12);
    assert("glob_not_matched"@.len() == 16);
    assert("parse_error"@.len() == 11);
    assert("minimum"@[1] == 'i');
    assert("maximum"@[1] == 'a');
    assert("max_length"@[0] == 'm');
    assert("wrong_type"@[0] == 'w');
    assert("min_length"@[0] == 'm');
    assert("min_length"@[1] == 'i');
    assert("max_length"@[1] == 'a');
    assert("pattern"@[0] == 'p');
    assert("maximum"@[0] == 'm');
    assert("minimum"@[0] == 'm');
    assert("min_items"@[1] == 'i');
    assert("max_items"@[1] == 'a');
    assert("min_properties"@[1] == 'i');
    assert("max_properties"@[1] == 'a');
    assert("properties"@[0] == 'p');
    assert("one_of"@[0] == 'o');
    assert("any_of"@[0] == 'a');
    assert("const"@[0] == 'c');
    assert("items"@[0] == 'i');
    assert("contains"@[0] == 'c');
    assert("required"@[0] == 'r');
    assert("default"@[0] == 'd');
    assert("format"@[0] == 'f');
    assert("unevaluated"@[0] == 'u');
    assert("multiple_of"@[0] == 'm');
    assert("unresolved_job"@[0] == 'u');
    assert("max_properties"@[0] == 'm');
    assert("min_properties"@[0] == 'm');
    assert("invalid_glob"@[0] == 'i');
    assert("unique_items"@[0] == 'u');
    assert("parse_error"@[0] == 'p');
}

/// Only the two combinators carry states: an error of any other kind has none.
pub proof fn lemma_only_combinators_have_states(e: ValidationError)
    ensures
        e@ matches ErrorView::Rule { kind, states, .. } ==> (kind.is_combinator() || states.len() == 0),
{
}

/// The view of the one error that stands for a document that did not parse.
pub open spec fn parse_error_view(detail: Seq<char>, location: Option<ParseErrorLocation>) -> ErrorView {
    ErrorView::Parse {
        meta: ParseMetadataView { code: "parse_error"@, title: "Parse Error"@, detail, location },
    }
}

impl ParseErrorMetadata {
    /// The metadata of a parse failure with this message and location.
    pub fn new(detail: String, location: Option<ParseErrorLocation>) -> (meta: ParseErrorMetadata)
        ensures
            meta@ == (ParseMetadataView {
                code: "parse_error"@,
                title: "Parse Error"@,
                detail: detail@,
                location,
            }),
    {
        ParseErrorMetadata {
            code: "parse_error".to_owned(),
            title: "Parse Error".to_owned(),
            detail,
            location,
        }
    }
}

impl ValidationError {
    /// The error that stands for a document that did not parse.
    pub fn parse_error(detail: String, location: Option<ParseErrorLocation>) -> (e: ValidationError)
        ensures
            e@ == parse_error_view(detail@, location),
    {
        ValidationError::ParseError { meta: ParseErrorMetadata::new(detail, location) }
    }

    /// The kind of the rule that the error reports. A parse error reports no rule.
    pub fn kind(&self) -> (kind: Option<ErrorKind>)
        ensures
            match self@ {
                ErrorView::Rule { kind: k, .. } => kind == Some(k),
                ErrorView::Parse { .. } => kind is None,
            },
    {
        match self {
            ValidationError::WrongTypeSchemaError { .. } => Some(ErrorKind::WrongType),
            ValidationError::MultipleOfSchemaError { .. } => Some(ErrorKind::MultipleOf),
            ValidationError::MaximumSchemaError { .. } => Some(ErrorKind::Maximum),
            ValidationError::MinimumSchemaError { .. } => Some(ErrorKind::Minimum),
            ValidationError::MaxLengthSchemaError { .. } => Some(ErrorKind::MaxLength),
            ValidationError::MinLengthSchemaError { .. } => Some(ErrorKind::MinLength),
            ValidationError::PatternSchemaError { .. } => Some(ErrorKind::Pattern),
            ValidationError::MaxItemsSchemaError { .. } => Some(ErrorKind::MaxItems),
            ValidationError::MinItemsSchemaError { .. } => Some(ErrorKind::MinItems),
            ValidationError::UniqueItemsSchemaError { .. } => Some(ErrorKind::UniqueItems),
            ValidationError::ItemsSchemaError { .. } => Some(ErrorKind::Items),
            ValidationError::MaxPropertiesSchemaError { .. } => Some(ErrorKind::MaxProperties),
            ValidationError::MinPropertiesSchemaError { .. } => Some(ErrorKind::MinProperties),
            ValidationError::RequiredSchemaError { .. } => Some(ErrorKind::Required),
            ValidationError::PropertiesSchemaError { .. } => Some(ErrorKind::Properties),
            ValidationError::EnumSchemaError { .. } => Some(ErrorKind::Enum),
            ValidationError::AnyOfSchemaError { .. } => Some(ErrorKind::AnyOf),
            ValidationError::OneOfSchemaError { .. } => Some(ErrorKind::OneOf),
            ValidationError::ConstSchemaError { .. } => Some(ErrorKind::Const),
            ValidationError::ContainsSchemaError { .. } => Some(ErrorKind::Contains),
            ValidationError::ContainsMinMaxSchemaError { .. } => Some(ErrorKind::ContainsMinMax),
            ValidationError::NotSchemaError { .. } => Some(ErrorKind::Not),
            ValidationError::DivergentDefaultsSchemaError { .. } => Some(ErrorKind::DivergentDefaults),
            ValidationError::FormatSchemaError { .. } => Some(ErrorKind::Format),
            ValidationError::UnevaluatedSchemaError { .. } => Some(ErrorKind::Unevaluated),
            ValidationError::UnknownSchemaError { .. } => Some(ErrorKind::Unknown),
            ValidationError::UnresolvedJobError { .. } => Some(ErrorKind::UnresolvedJob),
            ValidationError::InvalidGlobError { .. } => Some(ErrorKind::InvalidGlob),
            ValidationError::NoFilesMatchingGlobError { .. } => Some(ErrorKind::NoFilesMatchingGlob),
            ValidationError::ParseError { .. } => None,
        }
    }

    /// The error that stands for the engine's error `index`, and nothing
    /// where the engine's state has no such error.
    pub fn from_engine(state: &EngineState, index: usize) -> (r: Option<
        ValidationError,
    >)
        ensures
            match r {
                Some(e) => index < engine_errors(*state).len() && e@ == error_of_engine(
                    engine_errors(*state)[index as int],
                ),
                None => index >= engine_errors(*state).len(),
            },
        decreases engine_errors(*state), 0nat,
    {
        if index >= error_count(state) {
            return None;
        }
        let meta = ValidationErrorMetadata::from_valico_error(state, index);
        let kind = ErrorKind::from_code(meta.code.as_str());
        let mut states: Vec<ValidationState> = Vec::new();
        if kind.has_branches() {
            let branches = error_branches(state, index);
            let ghost reported = engine_errors(*state)[index as int].branches;
            let mut j: usize = 0;
            while j < branches.len()
                invariant
                    index < engine_errors(*state).len(),
                    reported == engine_errors(*state)[index as int].branches,
                    branches@.len() == reported.len(),
                    forall|k: int| 0 <= k < branches@.len() ==> engine_errors(*#[trigger] branches@[k]) == reported[k],
                    j <= branches.len(),
                    states@.len() == j,
                    forall|k: int| 0 <= k < j ==> state_view(#[trigger] states@[k]) == state_of_engine(reported[k]),
                decreases branches.len() - j,
            {
                let branch = ValidationState::from_engine(branches[j]);
                states.push(branch);
                j = j + 1;
            }
            assert(states_view(states@) =~= branch_states(reported));
        }
        Some(ValidationError::from_kind(kind, meta, states))
    }

    /// The error of `kind` with this metadata. The states are kept where
    /// `kind` is a combinator and dropped otherwise.
    pub fn from_kind(kind: ErrorKind, meta: ValidationErrorMetadata, states: Vec<ValidationState>) -> (e:
        ValidationError)
        ensures
            e@ == rule_view(kind, meta@, states_view(states@)),
    {
        match kind {
            ErrorKind::WrongType => ValidationError::WrongTypeSchemaError { meta },
            ErrorKind::MultipleOf => ValidationError::MultipleOfSchemaError { meta },
            ErrorKind::Maximum => ValidationError::MaximumSchemaError { meta },
            ErrorKind::Minimum => ValidationError::MinimumSchemaError { meta },
            ErrorKind::MaxLength => ValidationError::MaxLengthSchemaError { meta },
            ErrorKind::MinLength => ValidationError::MinLengthSchemaError { meta },
            ErrorKind::Pattern => ValidationError::PatternSchemaError { meta },
            ErrorKind::MaxItems => ValidationError::MaxItemsSchemaError { meta },
            ErrorKind::MinItems => ValidationError::MinItemsSchemaError { meta },
            ErrorKind::UniqueItems => ValidationError::UniqueItemsSchemaError { meta },
            ErrorKind::Items => ValidationError::ItemsSchemaError { meta },
            ErrorKind::MaxProperties => ValidationError::MaxPropertiesSchemaError { meta },
            ErrorKind::MinProperties => ValidationError::MinPropertiesSchemaError { meta },
            ErrorKind::Required => ValidationError::RequiredSchemaError { meta },
            ErrorKind::Properties => ValidationError::PropertiesSchemaError { meta },
            ErrorKind::Enum => ValidationError::EnumSchemaError { meta },
            ErrorKind::AnyOf => ValidationError::AnyOfSchemaError { states, meta },
            ErrorKind::OneOf => ValidationError::OneOfSchemaError { states, meta },
            ErrorKind::Const => ValidationError::ConstSchemaError { meta },
            ErrorKind::Contains => ValidationError::ContainsSchemaError { meta },
            ErrorKind::ContainsMinMax => ValidationError::ContainsMinMaxSchemaError { meta },
            ErrorKind::Not => ValidationError::NotSchemaError { meta },
            ErrorKind::DivergentDefaults => ValidationError::DivergentDefaultsSchemaError { meta },
            ErrorKind::Format => ValidationError::FormatSchemaError { meta },
            ErrorKind::Unevaluated => ValidationError::UnevaluatedSchemaError { meta },
            ErrorKind::Unknown => ValidationError::UnknownSchemaError { meta },
            ErrorKind::UnresolvedJob => ValidationError::UnresolvedJobError { meta },
            ErrorKind::InvalidGlob => ValidationError::InvalidGlobError { meta },
            ErrorKind::NoFilesMatchingGlob => ValidationError::NoFilesMatchingGlobError { meta },
        }
    }
}

} // verus!
