//! What a caller asks for: which kind of document, under which name, how loudly.

use crate::text::{opt_str_view, text_eq};
use vstd::prelude::*;

verus! {

/// The two kinds of document, each governed by a schema of its own.
#[derive(Copy, Clone, Debug, PartialEq, Eq, Structural)]
pub enum ActionType {
    Action,
    Workflow,
}

/// `std::path::PathBuf`, carried as it is: nothing here looks inside a path.
#[verifier::external_type_specification]
#[verifier::external_body]
pub struct ExPathBuf(std::path::PathBuf);

/// The arguments of the command line: the file to validate and whether to be verbose.
#[derive(Debug)]
pub struct CliConfig {
    /// Be more verbose
    pub verbose: bool,
    /// Input file
    pub src: std::path::PathBuf,
}

/// A request from an embedding host, which has text but no file.
pub struct JsConfig<'a> {
    pub action_type: ActionType,
    pub src: &'a str,
    pub verbose: bool,
}

/// One validation request.
///
/// `file_name` is the name shown in notices, `file_path` the path stamped on the verdict.
pub struct Config<'a> {
    pub file_path: Option<&'a str>,
    pub file_name: Option<&'a str>,
    pub action_type: ActionType,
    pub src: &'a str,
    pub verbose: bool,
}

/// The kind that a file name selects: `action.yml` and `action.yaml` are Actions,
/// every other name, and no name at all, is a Workflow.
pub open spec fn kind_for_name(file_name: Option<Seq<char>>) -> ActionType {
    match file_name {
        Some(name) => if name == "action.yml"@ || name == "action.yaml"@ {
            ActionType::Action
        } else {
            ActionType::Workflow
        },
        None => ActionType::Workflow,
    }
}

impl ActionType {
    /// Selects the kind of document from the name of its file.
    pub fn from_file_name(file_name: Option<&str>) -> (kind: ActionType)
        ensures
            kind == kind_for_name(opt_str_view(file_name)),
    {
        match file_name {
            Some(name) => {
                if text_eq(name, "action.yml") || text_eq(name, "action.yaml") {
                    ActionType::Action
                } else {
                    ActionType::Workflow
                }
            },
            None => ActionType::Workflow,
        }
    }
}

impl<'a> Config<'a> {
    /// The request of an embedding host: the kind is the one it declared,
    /// and there is neither a path nor a name.
    pub fn from_js(config: &JsConfig<'a>) -> (run: Config<'a>)
        ensures
            run.file_path is None,
            run.file_name is None,
            run.action_type == config.action_type,
            run.src == config.src,
            run.verbose == config.verbose,
    {
        Config {
            file_path: None,
            file_name: None,
            action_type: config.action_type,
            src: config.src,
            verbose: config.verbose,
        }
    }

    /// The request for a file named on the command line, once its text has
    /// been read: the kind follows from the file's name, the verbosity is the
    /// command line's.
    pub fn for_file(
        cli: &CliConfig,
        file_path: Option<&'a str>,
        file_name: Option<&'a str>,
        src: &'a str,
    ) -> (run: Config<'a>)
        ensures
            run.file_path == file_path,
            run.file_name == file_name,
            run.action_type == kind_for_name(opt_str_view(file_name)),
            run.src == src,
            run.verbose == cli.verbose,
    {
        Config {
            file_path,
            file_name,
            action_type: ActionType::from_file_name(file_name),
            src,
            verbose: cli.verbose,
        }
    }
}

} // verus!
