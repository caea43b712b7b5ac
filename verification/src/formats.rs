//! Formats in a schema: which of them the engine may be asked to check.
//!
//! For a string under `format` that names one of its formats, the engine
//! hands every string of the document that the schema reaches to a parser
//! of another crate. Not every one of these parsers returns on every
//! string: the one for `uri-template` stops the program on a variable that
//! holds a character of more than one byte, and the one for `regex` on a
//! conditional that is not closed. [`formats_return`] holds of the schemas
//! that ask only for formats whose parser is known to return, and only
//! those are handed on. The same goes for `contentEncoding`, which has the
//! engine decode the strings.

use crate::document::{as_array, as_str, entries, entries_json, json_of, lookup, values_json, Json};
use crate::references::{lemma_item, lemma_member};
use crate::text::text_eq;
use serde_json::Value;
use vstd::prelude::*;

verus! {

/// The formats of the engine that are not asked for: those of dates and
/// times, of mail addresses and host names, of references to a URI, of URI
/// templates and of regular expressions.
///
/// The engine knows seven more, which may stand: `ipv4`, `ipv6`, `uuid`,
/// `json-pointer`, `relative-json-pointer`, `uri` and `iri`. Any other name
/// means nothing to it.
pub open spec fn is_refused_format(name: Seq<char>) -> bool {
    name == "date"@ || name == "date-time"@ || name == "time"@ || name == "email"@ || name == "idn-email"@ || name
        == "hostname"@ || name == "idn-hostname"@ || name == "uri-reference"@ || name == "iri-reference"@ || name
        == "uri-template"@ || name == "regex"@
}

/// Whether an object asks for a format that is not asked for.
pub open spec fn holds_refused_format(node: Json) -> bool {
    match node.get("format"@) {
        Some(Json::String(name)) => is_refused_format(name),
        _ => false,
    }
}

/// Whether an object names an encoding: a string under `contentEncoding`.
pub open spec fn holds_encoding(node: Json) -> bool {
    node.get("contentEncoding"@) matches Some(Json::String(_))
}

/// Whether no object at `node` or below asks for a refused format or names
/// an encoding: the schema may be given to the engine.
pub open spec fn formats_return(node: Json) -> bool
    decreases node, 0nat,
{
    match node {
        Json::Object(members) => !holds_refused_format(node) && !holds_encoding(node) && member_formats_return(
            members,
            0,
        ),
        Json::Array(items) => item_formats_return(items, 0),
        _ => true,
    }
}

/// [`formats_return`] of every member of an object from member `i` on.
pub open spec fn member_formats_return(members: Seq<(Seq<char>, Json)>, i: int) -> bool
    decreases members, members.len() - i,
{
    0 <= i < members.len() ==> formats_return(members[i].1) && member_formats_return(members, i + 1)
}

/// [`formats_return`] of every item of a list from item `i` on.
pub open spec fn item_formats_return(items: Seq<Json>, i: int) -> bool
    decreases items, items.len() - i,
{
    0 <= i < items.len() ==> formats_return(items[i]) && item_formats_return(items, i + 1)
}

fn refused_format(name: &str) -> (r: bool)
    ensures
        r == is_refused_format(name@),
{
    text_eq(name, "date") || text_eq(name, "date-time") || text_eq(name, "time") || text_eq(name, "email")
        || text_eq(name, "idn-email") || text_eq(name, "hostname") || text_eq(name, "idn-hostname") || text_eq(
        name,
        "uri-reference",
    ) || text_eq(name, "iri-reference") || text_eq(name, "uri-template") || text_eq(name, "regex")
}

fn asks_refused_format(node: &Value) -> (r: bool)
    ensures
        r == holds_refused_format(json_of(*node)),
{
    match lookup(node, "format") {
        Some(value) => match as_str(value) {
            Some(name) => refused_format(name),
            None => false,
        },
        None => false,
    }
}

fn names_encoding(node: &Value) -> (r: bool)
    ensures
        r == holds_encoding(json_of(*node)),
{
    match lookup(node, "contentEncoding") {
        Some(value) => as_str(value).is_some(),
        None => false,
    }
}

fn formats_return_at(node: &Value) -> (r: bool)
    ensures
        r == formats_return(json_of(*node)),
    decreases json_of(*node), 0nat,
{
    match entries(node) {
        Some(members) => {
            if asks_refused_format(node) || names_encoding(node) {
                return false;
            }
            let ghost ms = json_of(*node)->Object_0;
            let mut i: usize = 0;
            while i < members.len()
                invariant
                    json_of(*node) == Json::Object(entries_json(members@)),
                    ms == json_of(*node)->Object_0,
                    ms.len() == members@.len(),
                    i <= members.len(),
                    member_formats_return(ms, 0) == member_formats_return(ms, i as int),
                decreases members.len() - i,
            {
                proof {
                    lemma_member(json_of(*node), members@, i as int);
                }
                if !formats_return_at(members[i].1) {
                    return false;
                }
                i = i + 1;
            }
            true
        },
        None => match as_array(node) {
            Some(items) => {
                let ghost list = json_of(*node)->Array_0;
                let mut i: usize = 0;
                while i < items.len()
                    invariant
                        json_of(*node) == Json::Array(values_json(items@)),
                        list == json_of(*node)->Array_0,
                        i <= items.len(),
                        item_formats_return(list, 0) == item_formats_return(list, i as int),
                    decreases items.len() - i,
                {
                    proof {
                        lemma_item(json_of(*node), items@, i as int);
                    }
                    if !formats_return_at(&items[i]) {
                        return false;
                    }
                    i = i + 1;
                }
                true
            },
            None => true,
        },
    }
}

/// Tests whether a schema asks only for formats whose check returns on every
/// string, so that the schema may be given to the engine.
pub fn check_formats(schema: &Value) -> (ok: bool)
    ensures
        ok == formats_return(json_of(*schema)),
{
    formats_return_at(schema)
}

} // verus!
