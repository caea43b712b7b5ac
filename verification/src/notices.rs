//! The text of the notices that accompany a run. Writing them out is for the caller.

use crate::config::{ActionType, Config};
use crate::document::{is_null, json_of, json_or_null, load, member, yaml_document, Json, Parsed};
use crate::globs::trigger_field;
use crate::text::{join3, opt_str_view};
use crate::validation_error::ValidationError;
use serde_json::Value;
use vstd::prelude::*;

verus! {

/// The name under which notices speak of a document without a name.
pub open spec fn display_name_view(file_name: Option<Seq<char>>) -> Seq<char> {
    match file_name {
        Some(name) => name,
        None => "file"@,
    }
}

/// The notice that says which kind a document is taken for.
pub open spec fn kind_notice_view(name: Seq<char>, kind: ActionType) -> Seq<char> {
    match kind {
        ActionType::Action => "Treating "@ + name + " as an Action definition"@,
        ActionType::Workflow => "Treating "@ + name + " as a Workflow definition"@,
    }
}

/// The warning for a path filter that is left unchecked.
pub open spec fn glob_unsupported_view(path: Seq<char>) -> Seq<char> {
    "WARNING: Glob validation is not yet supported. Glob at "@ + path + " will not be validated."@
}

/// The path of a field if the field is there, and nothing if it is null or absent.
pub open spec fn present_field(path: Seq<char>, field: Json) -> Seq<Seq<char>> {
    if field is Null {
        Seq::empty()
    } else {
        seq![path]
    }
}

/// The paths of the path filters that a workflow has, in the order of the checks.
pub open spec fn present_glob_fields(doc: Json) -> Seq<Seq<char>> {
    present_field("/on/push/paths"@, trigger_field(doc, "push"@, "paths"@)) + present_field(
        "/on/push/paths-ignore"@,
        trigger_field(doc, "push"@, "paths-ignore"@),
    ) + present_field("/on/pull_request/paths"@, trigger_field(doc, "pull_request"@, "paths"@))
        + present_field("/on/pull_request/paths-ignore"@, trigger_field(doc, "pull_request"@, "paths-ignore"@))
}

/// How loud a notice is.
#[derive(Copy, Clone, Debug, PartialEq, Eq, Structural)]
pub enum NoticeLevel {
    /// Said in passing.
    Log,
    /// Said as a warning.
    Warn,
}

/// One line for the caller to write out.
#[derive(Debug)]
pub struct Notice {
    pub level: NoticeLevel,
    pub text: String,
}

/// The mathematical content of a [`Notice`].
pub struct NoticeView {
    pub level: NoticeLevel,
    pub text: Seq<char>,
}

impl View for Notice {
    type V = NoticeView;

    open spec fn view(&self) -> NoticeView {
        NoticeView { level: self.level, text: self.text@ }
    }
}

/// The views of a sequence of notices, one for one.
pub open spec fn notices_view(notices: Seq<Notice>) -> Seq<NoticeView> {
    Seq::new(notices.len(), |i: int| notices[i]@)
}

/// One warning for each of the fields, in their order.
pub open spec fn glob_warnings(paths: Seq<Seq<char>>) -> Seq<NoticeView> {
    Seq::new(paths.len(), |i: int| NoticeView { level: NoticeLevel::Warn, text: glob_unsupported_view(paths[i]) })
}

/// The notices of a run on a document: the notice of its kind where the run
/// is verbose, and then, where it is a workflow and globs are not resolved,
/// one warning for each path filter it has.
pub open spec fn document_notices(
    kind: ActionType,
    name: Seq<char>,
    verbose: bool,
    resolving: bool,
    doc: Json,
) -> Seq<NoticeView> {
    (if verbose {
        seq![NoticeView { level: NoticeLevel::Log, text: kind_notice_view(name, kind) }]
    } else {
        Seq::empty()
    }) + (if kind == ActionType::Workflow && !resolving {
        glob_warnings(present_glob_fields(doc))
    } else {
        Seq::empty()
    })
}

/// The notices of a run: those of the document, and none for a text that
/// does not parse.
pub open spec fn run_notices(
    kind: ActionType,
    name: Seq<char>,
    verbose: bool,
    resolving: bool,
    parsed: Parsed,
) -> Seq<NoticeView> {
    match parsed {
        Parsed::Failure { .. } => Seq::empty(),
        Parsed::Document(doc) => document_notices(kind, name, verbose, resolving, doc),
    }
}

/// The views of a sequence of strings, one for one.
pub open spec fn strings_view(strings: Seq<String>) -> Seq<Seq<char>> {
    Seq::new(strings.len(), |i: int| strings[i]@)
}

impl<'a> Config<'a> {
    /// The name under which notices speak of the document: its file name,
    /// or `file` where it has none.
    pub fn display_name(&self) -> (name: &'a str)
        ensures
            name@ == display_name_view(opt_str_view(self.file_name)),
    {
        match self.file_name {
            Some(name) => name,
            None => "file",
        }
    }
}

/// The notice that says which kind the document `name` is taken for.
pub fn kind_notice(name: &str, kind: ActionType) -> (notice: String)
    ensures
        notice@ == kind_notice_view(name@, kind),
{
    match kind {
        ActionType::Action => join3("Treating ", name, " as an Action definition"),
        ActionType::Workflow => join3("Treating ", name, " as a Workflow definition"),
    }
}

/// The warning that the path filter at `path` is left unchecked.
pub fn glob_unsupported_notice(path: &str) -> (notice: String)
    ensures
        notice@ == glob_unsupported_view(path@),
{
    join3("WARNING: Glob validation is not yet supported. Glob at ", path, " will not be validated.")
}

/// Appends `path` where the field is there.
fn note_field(field: Option<&Value>, path: &str, paths: &mut Vec<String>)
    ensures
        strings_view(final(paths)@) == strings_view(old(paths)@) + present_field(path@, json_or_null(field)),
{
    match field {
        Some(value) => {
            if !is_null(value) {
                let ghost before = paths@;
                paths.push(path.to_owned());
                assert(strings_view(paths@) == strings_view(before).push(path@));
            }
        },
        None => {},
    }
}

/// Lists the path filters that a workflow has: the fields that are neither
/// null nor absent. Where globs cannot be resolved, each of them is owed one
/// warning.
pub fn glob_fields(doc: &Value) -> (paths: Vec<String>)
    ensures
        strings_view(paths@) == present_glob_fields(json_of(*doc)),
{
    let on = member(Some(doc), "on");
    let push = member(on, "push");
    let pull_request = member(on, "pull_request");
    let mut paths: Vec<String> = Vec::new();
    note_field(member(push, "paths"), "/on/push/paths", &mut paths);
    note_field(member(push, "paths-ignore"), "/on/push/paths-ignore", &mut paths);
    note_field(member(pull_request, "paths"), "/on/pull_request/paths", &mut paths);
    note_field(member(pull_request, "paths-ignore"), "/on/pull_request/paths-ignore", &mut paths);
    paths
}

/// Lists the notices of a run on what [`load`] made of a text, in the order
/// in which they are to be written out. `resolving` says whether the caller
/// resolves globs.
pub fn loaded_notices(config: &Config, resolving: bool, loaded: &Result<Value, ValidationError>) -> (list: Vec<
    Notice,
>)
    ensures
        notices_view(list@) == (match *loaded {
            Ok(doc) => document_notices(
                config.action_type,
                display_name_view(opt_str_view(config.file_name)),
                config.verbose,
                resolving,
                json_of(doc),
            ),
            Err(_) => Seq::empty(),
        }),
{
    let mut list: Vec<Notice> = Vec::new();
    let doc = match loaded {
        Ok(doc) => doc,
        Err(_) => {
            return list;
        },
    };
    if config.verbose {
        list.push(Notice { level: NoticeLevel::Log, text: kind_notice(config.display_name(), config.action_type) });
    }
    let ghost said = notices_view(list@);
    match config.action_type {
        ActionType::Action => {},
        ActionType::Workflow => {
            if !resolving {
                let paths = glob_fields(doc);
                let ghost wanted = glob_warnings(strings_view(paths@));
                let mut i: usize = 0;
                while i < paths.len()
                    invariant
                        i <= paths.len(),
                        wanted == glob_warnings(strings_view(paths@)),
                        notices_view(list@) == said + wanted.take(i as int),
                    decreases paths.len() - i,
                {
                    let ghost before = list@;
                    list.push(Notice { level: NoticeLevel::Warn, text: glob_unsupported_notice(paths[i].as_str()) });
                    assert(notices_view(list@) == notices_view(before).push(wanted[i as int]));
                    assert(wanted.take(i + 1) == wanted.take(i as int).push(wanted[i as int]));
                    i = i + 1;
                }
                assert(wanted.take(paths@.len() as int) == wanted);
            }
        },
    }
    list
}

/// Lists the notices of a run, in the order in which they are to be
/// written out. `resolving` says whether the caller resolves globs.
pub fn notices(config: &Config, resolving: bool) -> (list: Vec<Notice>)
    ensures
        notices_view(list@) == run_notices(
            config.action_type,
            display_name_view(opt_str_view(config.file_name)),
            config.verbose,
            resolving,
            yaml_document(config.src@),
        ),
{
    let loaded = load(config.src);
    loaded_notices(config, resolving, &loaded)
}

} // verus!
