//! Documents: YAML text parsed into JSON values, and how the checks read them.
//!
//! A document is a `serde_json::Value`, which the schema engine needs as it is.
//! The checks read it through the few operations below, each stated over
//! [`Json`], the part of a value's content that they depend on.

use crate::validation_error::{parse_error_view, ParseErrorLocation, ValidationError};
use serde_json::Value;
use vstd::prelude::*;

verus! {

/// `serde_json::Value`, opaque here: [`json_of`] says what one holds.
#[verifier::external_type_specification]
#[verifier::external_body]
pub struct ExValue(serde_json::Value);

/// The content of a JSON value as far as the checks read it.
///
/// Numbers are not told apart. The entries of an object stand in the order in
/// which the object hands them out.
pub enum Json {
    Null,
    Bool(bool),
    Number,
    String(Seq<char>),
    Array(Seq<Json>),
    Object(Seq<(Seq<char>, Json)>),
}

/// What parsing a text gives: a document, or the reason why there is none.
pub enum Parsed {
    Document(Json),
    Failure { detail: Seq<char>, location: Option<ParseErrorLocation> },
}

/// The content of a `serde_json::Value`.
pub uninterp spec fn json_of(v: Value) -> Json;

/// What `serde_yaml::from_str` makes of a text when asked for a `serde_json::Value`.
pub uninterp spec fn yaml_document(text: Seq<char>) -> Parsed;

/// What `serde_json::from_str` makes of a text: the value, or nothing where
/// the text is not JSON.
pub uninterp spec fn json_document(text: Seq<char>) -> Option<Json>;

/// The JSON text of a string: in double quotes, with the escapes of JSON.
pub uninterp spec fn json_string_text(s: Seq<char>) -> Seq<char>;

impl Json {
    /// The entries of an object; a value of any other type has none.
    pub open spec fn entries(self) -> Seq<(Seq<char>, Json)> {
        match self {
            Json::Object(entries) => entries,
            _ => Seq::empty(),
        }
    }

    /// The value under `key`, where this is an object that has the key.
    pub open spec fn get(self, key: Seq<char>) -> Option<Json> {
        find_entry(self.entries(), key)
    }

    /// The value under `key`, and `Null` where there is none.
    pub open spec fn member(self, key: Seq<char>) -> Json {
        match self.get(key) {
            Some(value) => value,
            None => Json::Null,
        }
    }
}

/// The value of the first entry under `key`.
pub open spec fn find_entry(entries: Seq<(Seq<char>, Json)>, key: Seq<char>) -> Option<Json>
    decreases entries.len(),
{
    if entries.len() == 0 {
        None
    } else if entries[0].0 == key {
        Some(entries[0].1)
    } else {
        find_entry(entries.drop_first(), key)
    }
}

/// Whether some entry stands under `key`.
pub open spec fn has_key(entries: Seq<(Seq<char>, Json)>, key: Seq<char>) -> bool {
    exists|i: int| 0 <= i < entries.len() && (#[trigger] entries[i]).0 == key
}

/// A key is found exactly when some entry stands under it.
pub proof fn lemma_find_entry_has_key(entries: Seq<(Seq<char>, Json)>, key: Seq<char>)
    ensures
        find_entry(entries, key) is Some <==> has_key(entries, key),
    decreases entries.len(),
{
    if entries.len() == 0 {
    } else if entries[0].0 == key {
    } else {
        let rest = entries.drop_first();
        lemma_find_entry_has_key(rest, key);
        if has_key(rest, key) {
            let i = choose|i: int| 0 <= i < rest.len() && (#[trigger] rest[i]).0 == key;
            assert(entries[i + 1] == rest[i]);
        }
        if has_key(entries, key) {
            let i = choose|i: int| 0 <= i < entries.len() && (#[trigger] entries[i]).0 == key;
            assert(rest[i - 1] == entries[i]);
        }
    }
}

/// The contents of the values of a sequence, one for one.
pub open spec fn values_json(values: Seq<Value>) -> Seq<Json> {
    Seq::new(values.len(), |i: int| json_of(values[i]))
}

/// The contents of borrowed entries, one for one.
pub open spec fn entries_json(entries: Seq<(&String, &Value)>) -> Seq<(Seq<char>, Json)> {
    Seq::new(entries.len(), |i: int| (entries[i].0@, json_of(*entries[i].1)))
}

/// The content of a value that may be absent: an absent one counts as `Null`.
pub open spec fn json_or_null(v: Option<&Value>) -> Json {
    match v {
        Some(value) => json_of(*value),
        None => Json::Null,
    }
}

/// `serde_yaml::from_str` for a `serde_json::Value`. On failure the error is
/// handed back as its message and, where it has one, its location.
///
/// Claims that the outcome depends on the text alone: it is [`yaml_document`]
/// of the text.
#[verifier::external_body]
pub(crate) fn parse_yaml(src: &str) -> (r: Result<Value, (String, Option<ParseErrorLocation>)>)
    ensures
        match r {
            Ok(doc) => yaml_document(src@) == Parsed::Document(json_of(doc)),
            Err((detail, location)) => yaml_document(src@) == (Parsed::Failure { detail: detail@, location }),
        },
{
    match serde_yaml::from_str::<Value>(src) {
        Ok(doc) => Ok(doc),
        Err(err) => {
            let location = match err.location() {
                Some(at) => Some(ParseErrorLocation { index: at.index(), line: at.line(), column: at.column() }),
                None => None,
            };
            Err((err.to_string(), location))
        },
    }
}

/// `serde_json::from_str` for a `serde_json::Value`, the error dropped.
///
/// Claims that the outcome depends on the text alone: it is [`json_document`]
/// of the text.
#[verifier::external_body]
pub(crate) fn parse_json(text: &str) -> (r: Option<Value>)
    ensures
        match r {
            Some(value) => json_document(text@) == Some(json_of(value)),
            None => json_document(text@) is None,
        },
{
    serde_json::from_str::<Value>(text).ok()
}

/// `Value::get` with a string key.
///
/// Claims what its documentation says: the value under the key where `v` is
/// an object that has the key, and nothing otherwise.
#[verifier::external_body]
pub(crate) fn lookup<'a>(v: &'a Value, key: &str) -> (r: Option<&'a Value>)
    ensures
        match r {
            Some(value) => json_of(*v).get(key@) == Some(json_of(*value)),
            None => json_of(*v).get(key@) is None,
        },
{
    v.get(key)
}

/// `Value::is_null`.
#[verifier::external_body]
pub(crate) fn is_null(v: &Value) -> (r: bool)
    ensures
        r == (json_of(*v) is Null),
{
    v.is_null()
}

/// `Value::as_str`: the text of a string, and nothing for any other type.
#[verifier::external_body]
pub(crate) fn as_str<'a>(v: &'a Value) -> (r: Option<&'a str>)
    ensures
        match r {
            Some(s) => json_of(*v) == Json::String(s@),
            None => !(json_of(*v) is String),
        },
{
    v.as_str()
}

/// `Value::as_array`: the items of an array, and nothing for any other type.
#[verifier::external_body]
pub(crate) fn as_array<'a>(v: &'a Value) -> (r: Option<&'a Vec<Value>>)
    ensures
        match r {
            Some(items) => json_of(*v) == Json::Array(values_json(items@)),
            None => !(json_of(*v) is Array),
        },
{
    v.as_array()
}

/// `Value::as_object` and `Map::iter`: the entries of an object in the order
/// in which the map hands them out, and nothing for any other type.
#[verifier::external_body]
pub(crate) fn entries<'a>(v: &'a Value) -> (r: Option<Vec<(&'a String, &'a Value)>>)
    ensures
        match r {
            Some(es) => json_of(*v) == Json::Object(entries_json(es@)),
            None => !(json_of(*v) is Object),
        },
{
    match v.as_object() {
        Some(map) => Some(map.iter().collect()),
        None => None,
    }
}

/// The `Display` of a `Value`, which writes compact JSON.
///
/// Claims it of strings only: the text is [`json_string_text`] of the string.
#[verifier::external_body]
pub(crate) fn value_text(v: &Value) -> (r: String)
    ensures
        json_of(*v) matches Json::String(s) ==> r@ == json_string_text(s),
{
    v.to_string()
}

/// Parses the text of a document.
///
/// Gives the document where the text is YAML that a JSON value can hold, and
/// otherwise the one parse error that says why not.
pub fn load(src: &str) -> (r: Result<Value, ValidationError>)
    ensures
        match r {
            Ok(doc) => yaml_document(src@) == Parsed::Document(json_of(doc)),
            Err(e) => yaml_document(src@) matches Parsed::Failure { detail, location } && e@
                == parse_error_view(detail, location),
        },
{
    match parse_yaml(src) {
        Ok(doc) => Ok(doc),
        Err((detail, location)) => Err(ValidationError::parse_error(detail, location)),
    }
}

/// The value under `key` of a value that may be absent.
pub fn member<'a>(v: Option<&'a Value>, key: &str) -> (r: Option<&'a Value>)
    ensures
        json_or_null(r) == json_or_null(v).member(key@),
{
    match v {
        Some(value) => lookup(value, key),
        None => {
            assert(Json::Null.entries().len() == 0);
            None
        },
    }
}

} // verus!
