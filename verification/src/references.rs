//! References in a schema: which schemas the engine may be given.
//!
//! The engine follows every `$ref` it meets and looks for no loop. A schema
//! whose references lead back to themselves without descending into the
//! document would keep it busy without end. [`references_end`] holds of the
//! schemas in which no such chain can arise, and only those are handed on.
//!
//! The test errs on the side of refusal. A reference counts only where it is
//! plain: `#` followed by a path of keys and item numbers that names a node
//! of the schema itself. Whatever else a schema applies to one and the same value
//! is followed, and every chain of references has to end within
//! [`MAX_REFERENCE_DEPTH`] steps.

use crate::document::{as_array, as_str, entries, entries_json, json_of, lookup, values_json, Json};
use crate::text::{join2, join3, text_eq};
use serde_json::Value;
use vstd::prelude::*;
use vstd::string::StrSliceExecFns;

verus! {

/// How many references may follow one another on one value.
pub const MAX_REFERENCE_DEPTH: usize = 32;

/// Whether a character may stand in a plain reference behind the `#`.
pub open spec fn is_plain_char(c: char) -> bool {
    let n = c as u32;
    (0x61 <= n <= 0x7a) || (0x41 <= n <= 0x5a) || (0x30 <= n <= 0x39) || c == '_' || c == '-' || c == '.' || c
        == '$' || c == '/'
}

/// Whether a reference is plain: a `#` and then only letters, digits and
/// `_`, `-`, `.`, `$`, `/`, so that it reads the same escaped or not.
pub open spec fn is_plain_reference(reference: Seq<char>) -> bool {
    reference.len() > 0 && reference[0] == '#' && forall|i: int|
        1 <= i < reference.len() ==> is_plain_char(#[trigger] reference[i])
}

/// The keywords whose schemas are applied to a part of the value, or to
/// nothing at all: no chain on one value passes through them.
pub open spec fn is_stop(key: Seq<char>) -> bool {
    key == "properties"@ || key == "patternProperties"@ || key == "additionalProperties"@ || key == "items"@ || key
        == "additionalItems"@ || key == "contains"@ || key == "definitions"@ || key == "$defs"@
}

/// The keywords that apply one schema to the same value.
pub open spec fn applies_schema(key: Seq<char>) -> bool {
    key == "not"@ || key == "if"@ || key == "then"@ || key == "else"@
}

/// The keywords that apply each schema of a list to the same value.
pub open spec fn applies_items(key: Seq<char>) -> bool {
    key == "allOf"@ || key == "anyOf"@ || key == "oneOf"@
}

/// The keywords that apply each schema of a map to the same value.
pub open spec fn applies_values(key: Seq<char>) -> bool {
    key == "dependencies"@ || key == "dependentSchemas"@
}

/// The text of one decimal digit.
pub open spec fn digit_text(d: nat) -> Seq<char> {
    if d == 0 {
        "0"@
    } else if d == 1 {
        "1"@
    } else if d == 2 {
        "2"@
    } else if d == 3 {
        "3"@
    } else if d == 4 {
        "4"@
    } else if d == 5 {
        "5"@
    } else if d == 6 {
        "6"@
    } else if d == 7 {
        "7"@
    } else if d == 8 {
        "8"@
    } else {
        "9"@
    }
}

/// The number of an item as a reference writes it: in decimal, without
/// leading zeros.
pub open spec fn index_text(n: nat) -> Seq<char>
    decreases n,
{
    if n < 10 {
        digit_text(n)
    } else {
        index_text(n / 10) + digit_text(n % 10)
    }
}

/// Whether `reference` names `at` or a node below it. `pointer` is the name
/// of `at` itself; the name of a member is that of its object, a `/` and its
/// key, the name of an item that of its list, a `/` and its number.
pub open spec fn names_node(at: Json, pointer: Seq<char>, reference: Seq<char>) -> bool
    decreases at, 0nat,
{
    ||| pointer == reference
    ||| at is Object && named_from(at->Object_0, pointer, reference, 0)
    ||| at is Array && named_from_item(at->Array_0, pointer, reference, 0)
}

/// Whether `reference` names a node at or below one of the members from `i` on.
pub open spec fn named_from(members: Seq<(Seq<char>, Json)>, pointer: Seq<char>, reference: Seq<char>, i: int) -> bool
    decreases members, members.len() - i,
{
    0 <= i < members.len() && (names_node(members[i].1, pointer + "/"@ + members[i].0, reference) || named_from(
        members,
        pointer,
        reference,
        i + 1,
    ))
}

/// Whether `reference` names a node at or below one of the items from `i` on.
pub open spec fn named_from_item(items: Seq<Json>, pointer: Seq<char>, reference: Seq<char>, i: int) -> bool
    decreases items, items.len() - i,
{
    0 <= i < items.len() && (names_node(items[i], pointer + "/"@ + index_text(i as nat), reference)
        || named_from_item(items, pointer, reference, i + 1))
}

/// Whether every chain of references that starts at `node` and stays on one
/// value ends within `depth` references.
///
/// With `keywords`, the keys of an object are read as the keywords of a
/// schema. Without, nothing is known of the object and every member is
/// followed.
pub open spec fn chains_end(root: Json, node: Json, keywords: bool, depth: nat) -> bool
    decreases depth, node, 0nat,
{
    match node {
        Json::Object(members) => members_end(root, members, keywords, depth, 0),
        Json::Array(items) => items_end(root, items, keywords, depth, 0),
        _ => true,
    }
}

/// Whether every chain through a member of an object ends, from member `i` on.
pub open spec fn members_end(root: Json, members: Seq<(Seq<char>, Json)>, keywords: bool, depth: nat, i: int) -> bool
    decreases depth, members, members.len() - i,
{
    0 <= i < members.len() ==> member_ends(root, members[i].0, members[i].1, keywords, depth) && members_end(
        root,
        members,
        keywords,
        depth,
        i + 1,
    )
}

/// Whether the chains of every item of a list end, from item `i` on.
pub open spec fn items_end(root: Json, items: Seq<Json>, keywords: bool, depth: nat, i: int) -> bool
    decreases depth, items, items.len() - i,
{
    0 <= i < items.len() ==> chains_end(root, items[i], keywords, depth) && items_end(
        root,
        items,
        keywords,
        depth,
        i + 1,
    )
}

/// Whether the chains of every value of a map of schemas end, from member `i` on.
pub open spec fn values_end(root: Json, members: Seq<(Seq<char>, Json)>, depth: nat, i: int) -> bool
    decreases depth, members, members.len() - i,
{
    0 <= i < members.len() ==> chains_end(root, members[i].1, true, depth) && values_end(root, members, depth, i + 1)
}

/// Whether every chain through the member `key` of an object ends.
///
/// A reference has to be plain, has to name a node, and the chains of the
/// nodes it names have to end with one reference less to spend.
pub open spec fn member_ends(root: Json, key: Seq<char>, child: Json, keywords: bool, depth: nat) -> bool
    decreases depth, child, 1nat,
{
    if key == "$ref"@ && child is String {
        &&& depth > 0
        &&& is_plain_reference(child->String_0)
        &&& names_node(root, "#"@, child->String_0)
        &&& targets_end(root, root, "#"@, child->String_0, (depth - 1) as nat)
    } else if keywords && is_stop(key) {
        true
    } else if keywords && applies_schema(key) {
        chains_end(root, child, true, depth)
    } else if keywords && applies_items(key) && child is Array {
        items_end(root, child->Array_0, true, depth, 0)
    } else if keywords && applies_values(key) && child is Object {
        values_end(root, child->Object_0, depth, 0)
    } else {
        chains_end(root, child, false, depth)
    }
}

/// Whether the chains end that start at the nodes which `reference` names
/// at `at` and below.
pub open spec fn targets_end(root: Json, at: Json, pointer: Seq<char>, reference: Seq<char>, depth: nat) -> bool
    decreases depth, at, 2nat,
{
    &&& pointer == reference ==> chains_end(root, at, true, depth)
    &&& at is Object ==> targets_end_from(root, at->Object_0, pointer, reference, depth, 0)
    &&& at is Array ==> targets_end_from_item(root, at->Array_0, pointer, reference, depth, 0)
}

/// Whether the chains end that start at the nodes which `reference` names
/// at or below one of the members from `i` on.
pub open spec fn targets_end_from(
    root: Json,
    members: Seq<(Seq<char>, Json)>,
    pointer: Seq<char>,
    reference: Seq<char>,
    depth: nat,
    i: int,
) -> bool
    decreases depth, members, members.len() - i,
{
    0 <= i < members.len() ==> targets_end(root, members[i].1, pointer + "/"@ + members[i].0, reference, depth)
        && targets_end_from(root, members, pointer, reference, depth, i + 1)
}

/// Whether the chains end that start at the nodes which `reference` names
/// at or below one of the items from `i` on.
pub open spec fn targets_end_from_item(
    root: Json,
    items: Seq<Json>,
    pointer: Seq<char>,
    reference: Seq<char>,
    depth: nat,
    i: int,
) -> bool
    decreases depth, items, items.len() - i,
{
    0 <= i < items.len() ==> targets_end(root, items[i], pointer + "/"@ + index_text(i as nat), reference, depth)
        && targets_end_from_item(root, items, pointer, reference, depth, i + 1)
}

/// Whether an object holds a reference: a string under `$ref`.
pub open spec fn holds_reference(node: Json) -> bool {
    node.get("$ref"@) matches Some(Json::String(_))
}

/// Whether an object gives itself an address of its own: a string under `$id`.
pub open spec fn holds_id(node: Json) -> bool {
    node.get("$id"@) matches Some(Json::String(_))
}

/// Whether, at `node` and below, every object that holds a reference starts
/// only chains that end, and, where `inner`, none gives itself an address.
pub open spec fn nodes_end(root: Json, node: Json, inner: bool) -> bool
    decreases node, 0nat,
{
    match node {
        Json::Object(members) => {
            &&& holds_reference(node) ==> chains_end(root, node, true, MAX_REFERENCE_DEPTH as nat)
            &&& inner ==> !holds_id(node)
            &&& member_nodes_end(root, members, 0)
        },
        Json::Array(items) => item_nodes_end(root, items, 0),
        _ => true,
    }
}

/// [`nodes_end`] of every member of an object from member `i` on.
pub open spec fn member_nodes_end(root: Json, members: Seq<(Seq<char>, Json)>, i: int) -> bool
    decreases members, members.len() - i,
{
    0 <= i < members.len() ==> nodes_end(root, members[i].1, true) && member_nodes_end(root, members, i + 1)
}

/// [`nodes_end`] of every item of a list from item `i` on.
pub open spec fn item_nodes_end(root: Json, items: Seq<Json>, i: int) -> bool
    decreases items, items.len() - i,
{
    0 <= i < items.len() ==> nodes_end(root, items[i], true) && item_nodes_end(root, items, i + 1)
}

/// Whether the references of a schema all end: the schema may be given to
/// the engine.
///
/// No object below the top gives itself an address with `$id`, so that every
/// reference is read against the schema itself; and no chain of references
/// on one value is longer than [`MAX_REFERENCE_DEPTH`].
pub open spec fn references_end(schema: Json) -> bool {
    nodes_end(schema, schema, false)
}

fn plain_char(c: char) -> (r: bool)
    ensures
        r == is_plain_char(c),
{
    let n: u32 = c as u32;
    (0x61 <= n && n <= 0x7a) || (0x41 <= n && n <= 0x5a) || (0x30 <= n && n <= 0x39) || c == '_' || c == '-' || c
        == '.' || c == '$' || c == '/'
}

fn plain_reference(reference: &str) -> (r: bool)
    ensures
        r == is_plain_reference(reference@),
{
    let n = reference.unicode_len();
    if n == 0 {
        return false;
    }
    if reference.get_char(0) != '#' {
        return false;
    }
    let mut i: usize = 1;
    while i < n
        invariant
            n == reference@.len(),
            1 <= i <= n,
            forall|k: int| 1 <= k < i ==> is_plain_char(#[trigger] reference@[k]),
        decreases n - i,
    {
        if !plain_char(reference.get_char(i)) {
            return false;
        }
        i = i + 1;
    }
    true
}

fn digit(d: usize) -> (r: &'static str)
    requires
        d < 10,
    ensures
        r@ == digit_text(d as nat),
{
    if d == 0 {
        "0"
    } else if d == 1 {
        "1"
    } else if d == 2 {
        "2"
    } else if d == 3 {
        "3"
    } else if d == 4 {
        "4"
    } else if d == 5 {
        "5"
    } else if d == 6 {
        "6"
    } else if d == 7 {
        "7"
    } else if d == 8 {
        "8"
    } else {
        "9"
    }
}

/// The name of item `n` below the list named `pointer`.
fn item_pointer(pointer: &str, n: usize) -> (r: String)
    ensures
        r@ == pointer@ + "/"@ + index_text(n as nat),
    decreases n,
{
    if n < 10 {
        join3(pointer, "/", digit(n))
    } else {
        let front = item_pointer(pointer, n / 10);
        let r = join2(front.as_str(), digit(n % 10));
        assert(r@ == pointer@ + "/"@ + index_text(n as nat)) by {
            assert(pointer@ + "/"@ + index_text((n / 10) as nat) + digit_text((n % 10) as nat) == pointer@ + "/"@ + (
            index_text((n / 10) as nat) + digit_text((n % 10) as nat)));
        }
        r
    }
}

fn stop_key(key: &str) -> (r: bool)
    ensures
        r == is_stop(key@),
{
    text_eq(key, "properties") || text_eq(key, "patternProperties") || text_eq(key, "additionalProperties")
        || text_eq(key, "items") || text_eq(key, "additionalItems") || text_eq(key, "contains") || text_eq(
        key,
        "definitions",
    ) || text_eq(key, "$defs")
}

fn schema_key(key: &str) -> (r: bool)
    ensures
        r == applies_schema(key@),
{
    text_eq(key, "not") || text_eq(key, "if") || text_eq(key, "then") || text_eq(key, "else")
}

fn items_key(key: &str) -> (r: bool)
    ensures
        r == applies_items(key@),
{
    text_eq(key, "allOf") || text_eq(key, "anyOf") || text_eq(key, "oneOf")
}

fn values_key(key: &str) -> (r: bool)
    ensures
        r == applies_values(key@),
{
    text_eq(key, "dependencies") || text_eq(key, "dependentSchemas")
}

/// What is known of the member `i` of an object that was read through
/// `entries`, and that it is smaller than the object.
pub(crate) proof fn lemma_member(node: Json, members: Seq<(&String, &Value)>, i: int)
    requires
        node == Json::Object(entries_json(members)),
        0 <= i < members.len(),
    ensures
        node->Object_0[i] == (members[i].0@, json_of(*members[i].1)),
        decreases_to!(node => json_of(*members[i].1)),
        decreases_to!(node => node->Object_0),
        decreases_to!(node->Object_0 => json_of(*members[i].1)),
{
    let ms = node->Object_0;
    assert(ms == entries_json(members));
    assert(ms[i] == (members[i].0@, json_of(*members[i].1)));
    assert(decreases_to!(node => ms));
    assert(decreases_to!(ms => ms[i]));
    assert(decreases_to!(ms[i] => ms[i].1));
}

/// What is known of the item `i` of an array that was read through
/// `as_array`, and that it is smaller than the array.
pub(crate) proof fn lemma_item(node: Json, items: Seq<Value>, i: int)
    requires
        node == Json::Array(values_json(items)),
        0 <= i < items.len(),
    ensures
        node->Array_0[i] == json_of(items[i]),
        decreases_to!(node => json_of(items[i])),
        decreases_to!(node => node->Array_0),
        decreases_to!(node->Array_0 => json_of(items[i])),
{
    let list = node->Array_0;
    assert(list == values_json(items));
    assert(list[i] == json_of(items[i]));
    assert(decreases_to!(node => list));
    assert(decreases_to!(list => list[i]));
}

fn node_named(at: &Value, pointer: &str, reference: &str) -> (r: bool)
    ensures
        r == names_node(json_of(*at), pointer@, reference@),
    decreases json_of(*at), 0nat,
{
    if text_eq(pointer, reference) {
        return true;
    }
    match entries(at) {
        None => match as_array(at) {
            None => false,
            Some(items) => {
                let ghost list = json_of(*at)->Array_0;
                let mut i: usize = 0;
                while i < items.len()
                    invariant
                        json_of(*at) == Json::Array(values_json(items@)),
                        list == json_of(*at)->Array_0,
                        i <= items.len(),
                        named_from_item(list, pointer@, reference@, 0) == named_from_item(
                            list,
                            pointer@,
                            reference@,
                            i as int,
                        ),
                    decreases items.len() - i,
                {
                    proof {
                        lemma_item(json_of(*at), items@, i as int);
                    }
                    let below = item_pointer(pointer, i);
                    if node_named(&items[i], below.as_str(), reference) {
                        return true;
                    }
                    i = i + 1;
                }
                false
            },
        },
        Some(members) => {
            let ghost ms = json_of(*at)->Object_0;
            let mut i: usize = 0;
            while i < members.len()
                invariant
                    json_of(*at) == Json::Object(entries_json(members@)),
                    ms == json_of(*at)->Object_0,
                    ms.len() == members@.len(),
                    i <= members.len(),
                    named_from(ms, pointer@, reference@, 0) == named_from(ms, pointer@, reference@, i as int),
                decreases members.len() - i,
            {
                proof {
                    lemma_member(json_of(*at), members@, i as int);
                }
                let below = join3(pointer, "/", members[i].0.as_str());
                if node_named(members[i].1, below.as_str(), reference) {
                    return true;
                }
                i = i + 1;
            }
            false
        },
    }
}

fn chains_end_at(root: &Value, node: &Value, keywords: bool, depth: usize) -> (r: bool)
    ensures
        r == chains_end(json_of(*root), json_of(*node), keywords, depth as nat),
    decreases depth, json_of(*node), 0nat,
{
    match entries(node) {
        Some(members) => {
            let ghost ms = json_of(*node)->Object_0;
            let mut i: usize = 0;
            while i < members.len()
                invariant
                    json_of(*node) == Json::Object(entries_json(members@)),
                    ms == json_of(*node)->Object_0,
                    ms.len() == members@.len(),
                    i <= members.len(),
                    members_end(json_of(*root), ms, keywords, depth as nat, 0) == members_end(
                        json_of(*root),
                        ms,
                        keywords,
                        depth as nat,
                        i as int,
                    ),
                decreases members.len() - i,
            {
                proof {
                    lemma_member(json_of(*node), members@, i as int);
                }
                if !member_ends_at(root, members[i].0.as_str(), members[i].1, keywords, depth) {
                    return false;
                }
                i = i + 1;
            }
            true
        },
        None => match as_array(node) {
            Some(items) => {
                proof {
                    assert(decreases_to!(json_of(*node) => json_of(*node)->Array_0));
                }
                items_end_at(root, items, keywords, depth)
            },
            None => true,
        },
    }
}

fn items_end_at(root: &Value, items: &Vec<Value>, keywords: bool, depth: usize) -> (r: bool)
    ensures
        r == items_end(json_of(*root), values_json(items@), keywords, depth as nat, 0),
    decreases depth, values_json(items@), items@.len(),
{
    let ghost list = values_json(items@);
    let mut i: usize = 0;
    while i < items.len()
        invariant
            list == values_json(items@),
            i <= items.len(),
            items_end(json_of(*root), list, keywords, depth as nat, 0) == items_end(
                json_of(*root),
                list,
                keywords,
                depth as nat,
                i as int,
            ),
        decreases items.len() - i,
    {
        proof {
            lemma_item(Json::Array(list), items@, i as int);
        }
        if !chains_end_at(root, &items[i], keywords, depth) {
            return false;
        }
        i = i + 1;
    }
    true
}

fn values_end_at(root: &Value, child: &Value, members: &Vec<(&String, &Value)>, depth: usize) -> (r: bool)
    requires
        json_of(*child) == Json::Object(entries_json(members@)),
    ensures
        r == values_end(json_of(*root), json_of(*child)->Object_0, depth as nat, 0),
    decreases depth, json_of(*child)->Object_0, members@.len(),
{
    let ghost ms = json_of(*child)->Object_0;
    let mut i: usize = 0;
    while i < members.len()
        invariant
            json_of(*child) == Json::Object(entries_json(members@)),
            ms == json_of(*child)->Object_0,
            ms.len() == members@.len(),
            i <= members.len(),
            values_end(json_of(*root), ms, depth as nat, 0) == values_end(json_of(*root), ms, depth as nat, i as int),
        decreases members.len() - i,
    {
        proof {
            lemma_member(json_of(*child), members@, i as int);
        }
        if !chains_end_at(root, members[i].1, true, depth) {
            return false;
        }
        i = i + 1;
    }
    true
}

fn member_ends_at(root: &Value, key: &str, child: &Value, keywords: bool, depth: usize) -> (r: bool)
    ensures
        r == member_ends(json_of(*root), key@, json_of(*child), keywords, depth as nat),
    decreases depth, json_of(*child), 1nat,
{
    if text_eq(key, "$ref") {
        match as_str(child) {
            Some(reference) => {
                return depth > 0 && plain_reference(reference) && node_named(root, "#", reference) && targets_end_at(
                    root,
                    root,
                    "#",
                    reference,
                    depth - 1,
                );
            },
            None => {},
        }
    }
    if keywords && stop_key(key) {
        return true;
    }
    if keywords && schema_key(key) {
        return chains_end_at(root, child, true, depth);
    }
    if keywords && items_key(key) {
        match as_array(child) {
            Some(items) => {
                proof {
                    assert(decreases_to!(json_of(*child) => json_of(*child)->Array_0));
                }
                return items_end_at(root, items, true, depth);
            },
            None => {},
        }
    }
    if keywords && values_key(key) {
        match entries(child) {
            Some(members) => {
                proof {
                    assert(decreases_to!(json_of(*child) => json_of(*child)->Object_0));
                }
                return values_end_at(root, child, &members, depth);
            },
            None => {},
        }
    }
    chains_end_at(root, child, false, depth)
}

fn targets_end_at(root: &Value, at: &Value, pointer: &str, reference: &str, depth: usize) -> (r: bool)
    ensures
        r == targets_end(json_of(*root), json_of(*at), pointer@, reference@, depth as nat),
    decreases depth, json_of(*at), 2nat,
{
    if text_eq(pointer, reference) {
        if !chains_end_at(root, at, true, depth) {
            return false;
        }
    }
    match entries(at) {
        None => match as_array(at) {
            None => true,
            Some(items) => {
                let ghost list = json_of(*at)->Array_0;
                let mut i: usize = 0;
                while i < items.len()
                    invariant
                        json_of(*at) == Json::Array(values_json(items@)),
                        list == json_of(*at)->Array_0,
                        i <= items.len(),
                        targets_end_from_item(json_of(*root), list, pointer@, reference@, depth as nat, 0)
                            == targets_end_from_item(
                            json_of(*root),
                            list,
                            pointer@,
                            reference@,
                            depth as nat,
                            i as int,
                        ),
                    decreases items.len() - i,
                {
                    proof {
                        lemma_item(json_of(*at), items@, i as int);
                    }
                    let below = item_pointer(pointer, i);
                    if !targets_end_at(root, &items[i], below.as_str(), reference, depth) {
                        return false;
                    }
                    i = i + 1;
                }
                true
            },
        },
        Some(members) => {
            let ghost ms = json_of(*at)->Object_0;
            let mut i: usize = 0;
            while i < members.len()
                invariant
                    json_of(*at) == Json::Object(entries_json(members@)),
                    ms == json_of(*at)->Object_0,
                    ms.len() == members@.len(),
                    i <= members.len(),
                    targets_end_from(json_of(*root), ms, pointer@, reference@, depth as nat, 0) == targets_end_from(
                        json_of(*root),
                        ms,
                        pointer@,
                        reference@,
                        depth as nat,
                        i as int,
                    ),
                decreases members.len() - i,
            {
                proof {
                    lemma_member(json_of(*at), members@, i as int);
                }
                let below = join3(pointer, "/", members[i].0.as_str());
                if !targets_end_at(root, members[i].1, below.as_str(), reference, depth) {
                    return false;
                }
                i = i + 1;
            }
            true
        },
    }
}

/// Whether a value holds a string under `key`.
fn holds_string(node: &Value, key: &str) -> (r: bool)
    ensures
        r == (json_of(*node).get(key@) matches Some(Json::String(_))),
{
    match lookup(node, key) {
        Some(value) => as_str(value).is_some(),
        None => false,
    }
}

fn nodes_end_at(root: &Value, node: &Value, inner: bool) -> (r: bool)
    ensures
        r == nodes_end(json_of(*root), json_of(*node), inner),
    decreases json_of(*node), 0nat,
{
    match entries(node) {
        Some(members) => {
            if holds_string(node, "$ref") && !chains_end_at(root, node, true, MAX_REFERENCE_DEPTH) {
                return false;
            }
            if inner && holds_string(node, "$id") {
                return false;
            }
            let ghost ms = json_of(*node)->Object_0;
            let mut i: usize = 0;
            while i < members.len()
                invariant
                    json_of(*node) == Json::Object(entries_json(members@)),
                    ms == json_of(*node)->Object_0,
                    ms.len() == members@.len(),
                    i <= members.len(),
                    member_nodes_end(json_of(*root), ms, 0) == member_nodes_end(json_of(*root), ms, i as int),
                decreases members.len() - i,
            {
                proof {
                    lemma_member(json_of(*node), members@, i as int);
                }
                if !nodes_end_at(root, members[i].1, true) {
                    return false;
                }
                i = i + 1;
            }
            true
        },
        None => match as_array(node) {
            Some(items) => {
                let ghost list = json_of(*node)->Array_0;
                let mut i: usize = 0;
                while i < items.len()
                    invariant
                        json_of(*node) == Json::Array(values_json(items@)),
                        list == json_of(*node)->Array_0,
                        i <= items.len(),
                        item_nodes_end(json_of(*root), list, 0) == item_nodes_end(json_of(*root), list, i as int),
                    decreases items.len() - i,
                {
                    proof {
                        lemma_item(json_of(*node), items@, i as int);
                    }
                    if !nodes_end_at(root, &items[i], true) {
                        return false;
                    }
                    i = i + 1;
                }
                true
            },
            None => true,
        },
    }
}

/// Tests whether the references of a schema all end, so that the schema may
/// be given to the engine.
pub fn check_references(schema: &Value) -> (ok: bool)
    ensures
        ok == references_end(json_of(*schema)),
{
    nodes_end_at(schema, schema, false)
}

} // verus!
