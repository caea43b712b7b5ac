//! Validation of GitHub Action and Workflow documents.
//!
//! A document is YAML text. [`run`] parses it, checks it against the schema
//! of its kind and, for a workflow, checks that every job a job needs exists
//! and that every path filter, once resolved, matches a file. The verdict is
//! a [`ValidationState`]: the document is valid exactly when it holds no error.
//!
//! Nothing here touches the file system. The globs to resolve are listed by
//! [`requested_globs`]; the caller resolves them and hands the outcomes to
//! [`run`]. A caller that wants the text parsed once takes it through
//! [`load`], [`loaded_notices`], [`loaded_globs`] and [`run_loaded`].
//!
//! A schema is handed to the engine only where its references are known to
//! end, the formats it asks for are known to be checked without harm, and
//! its patterns are plain; [`check_references`], [`check_formats`] and
//! [`check_patterns`] are the tests.

pub mod config;
pub mod document;
pub mod engine;
pub mod formats;
pub mod globs;
pub mod jobs;
pub mod notices;
pub mod patterns;
pub mod pipeline;
pub mod references;
pub mod schemas;
pub mod text;
pub mod validation_error;
pub mod validation_state;

pub use crate::config::{ActionType, CliConfig, Config, JsConfig};
pub use crate::document::load;
pub use crate::formats::check_formats;
pub use crate::globs::{glob_requests, validate_globs, validate_paths, GlobOutcome, GlobRequest};
pub use crate::jobs::validate_job_needs;
pub use crate::notices::{
    glob_fields, glob_unsupported_notice, kind_notice, loaded_notices, notices, Notice, NoticeLevel,
};
pub use crate::patterns::{check_patterns, plain_pattern, MAX_PATTERN_BRACES, MAX_PATTERN_LENGTH};
pub use crate::pipeline::{
    aggregate, loaded_globs, parse_failure, requested_globs, run, run_answer, run_document, run_loaded,
    schema_error_count,
};
pub use crate::references::{check_references, MAX_REFERENCE_DEPTH};
pub use crate::schemas::{
    schema_answer, validate_as_action, validate_as_kind, validate_as_workflow, validate_with_schema,
    SchemaLoadError, Schemas,
};
pub use crate::validation_error::{
    ErrorKind, ParseErrorLocation, ParseErrorMetadata, ValidationError, ValidationErrorMetadata,
};
pub use crate::validation_state::ValidationState;
