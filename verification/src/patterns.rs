//! Patterns in a schema: which of them the engine may be asked to compile.
//!
//! The engine compiles every string under `pattern` and every key under
//! `patternProperties` with `fancy_regex`. That crate parses a pattern
//! itself and, for what the `regex` crate cannot do, matches it itself. Its
//! parser steps past the end of a pattern that holds an unclosed
//! conditional, and its sizes overflow on large counts.
//! [`patterns_are_plain`] holds of the schemas whose patterns stay clear of
//! both, and of everything else that `fancy_regex` does not hand on to
//! `regex`; only those are given to the engine.

use crate::document::{as_array, as_str, entries, entries_json, json_of, lookup, values_json, Json};
use crate::references::{lemma_item, lemma_member};
use serde_json::Value;
use vstd::prelude::*;
use vstd::string::StrSliceExecFns;

verus! {

/// How many characters a pattern may have.
pub const MAX_PATTERN_LENGTH: usize = 1000;

/// How many `{` a pattern may hold. With counts of two digits at most this
/// keeps every size that is computed from a pattern far below what 32 bits
/// hold.
pub const MAX_PATTERN_BRACES: usize = 3;

/// Whether a character is a decimal digit.
pub open spec fn is_digit_char(c: char) -> bool {
    0x30 <= c as u32 <= 0x39
}

/// Whether nothing that starts at place `i` of a pattern asks for more than
/// the `regex` crate does:
/// - after `(?` comes `:`, so a group is plain or not captured, and there is
///   neither a flag nor a comment, a look around, a name or a conditional;
/// - after `\` comes neither a digit nor `k`, `K` or `G`, so nothing refers
///   back;
/// - before `+` comes none of `+`, `*`, `?` and `}`, so no repetition is
///   possessive;
/// - no three digits stand in a row, so no count is above 99.
pub open spec fn plain_at(p: Seq<char>, i: int) -> bool {
    &&& (p[i] == '(' && i + 1 < p.len() && p[i + 1] == '?') ==> (i + 2 < p.len() && p[i + 2] == ':')
    &&& (p[i] == '\\' && i + 1 < p.len()) ==> !(is_digit_char(p[i + 1]) || p[i + 1] == 'k' || p[i + 1] == 'K' || p[i
        + 1] == 'G')
    &&& (i + 1 < p.len() && p[i + 1] == '+') ==> !(p[i] == '+' || p[i] == '*' || p[i] == '?' || p[i] == '}')
    &&& (i + 2 < p.len() && is_digit_char(p[i]) && is_digit_char(p[i + 1])) ==> !is_digit_char(p[i + 2])
}

/// The number of `{` among the first `n` characters of a pattern.
pub open spec fn braces(p: Seq<char>, n: int) -> nat
    decreases n,
{
    if n <= 0 {
        0
    } else {
        braces(p, n - 1) + (if p[n - 1] == '{' {
            1nat
        } else {
            0nat
        })
    }
}

/// Whether a pattern is plain: it is not too long, holds few `{`, and is
/// plain at every place.
pub open spec fn is_plain_pattern(p: Seq<char>) -> bool {
    &&& p.len() <= MAX_PATTERN_LENGTH
    &&& braces(p, p.len() as int) <= MAX_PATTERN_BRACES
    &&& forall|i: int| 0 <= i < p.len() ==> #[trigger] plain_at(p, i)
}

/// Whether the keys of the members from `i` on are plain patterns.
pub open spec fn keys_are_plain(members: Seq<(Seq<char>, Json)>, i: int) -> bool
    decreases members.len() - i,
{
    0 <= i < members.len() ==> is_plain_pattern(members[i].0) && keys_are_plain(members, i + 1)
}

/// Whether the patterns that an object holds are plain: the string under
/// `pattern` and the keys of the object under `patternProperties`.
pub open spec fn holds_plain_patterns(node: Json) -> bool {
    &&& match node.get("pattern"@) {
        Some(Json::String(p)) => is_plain_pattern(p),
        _ => true,
    }
    &&& match node.get("patternProperties"@) {
        Some(Json::Object(members)) => keys_are_plain(members, 0),
        _ => true,
    }
}

/// Whether every pattern at `node` and below is plain: the schema may be
/// given to the engine.
pub open spec fn patterns_are_plain(node: Json) -> bool
    decreases node, 0nat,
{
    match node {
        Json::Object(members) => holds_plain_patterns(node) && member_patterns_are_plain(members, 0),
        Json::Array(items) => item_patterns_are_plain(items, 0),
        _ => true,
    }
}

/// [`patterns_are_plain`] of every member of an object from member `i` on.
pub open spec fn member_patterns_are_plain(members: Seq<(Seq<char>, Json)>, i: int) -> bool
    decreases members, members.len() - i,
{
    0 <= i < members.len() ==> patterns_are_plain(members[i].1) && member_patterns_are_plain(members, i + 1)
}

/// [`patterns_are_plain`] of every item of a list from item `i` on.
pub open spec fn item_patterns_are_plain(items: Seq<Json>, i: int) -> bool
    decreases items, items.len() - i,
{
    0 <= i < items.len() ==> patterns_are_plain(items[i]) && item_patterns_are_plain(items, i + 1)
}

/// The count of `{` does not fall as more of the pattern is counted.
proof fn lemma_braces_grow(p: Seq<char>, a: int, b: int)
    requires
        a <= b,
    ensures
        braces(p, a) <= braces(p, b),
    decreases b - a,
{
    if a < b {
        lemma_braces_grow(p, a, b - 1);
    }
}

fn digit_char(c: char) -> (r: bool)
    ensures
        r == is_digit_char(c),
{
    let n: u32 = c as u32;
    0x30 <= n && n <= 0x39
}

/// Tests the place `i` of a pattern of `n` characters.
fn plain_place(p: &str, n: usize, i: usize) -> (r: bool)
    requires
        n == p@.len(),
        i < n,
    ensures
        r == plain_at(p@, i as int),
{
    let c = p.get_char(i);
    if i + 1 < n {
        let d = p.get_char(i + 1);
        if c == '(' && d == '?' {
            if !(i + 2 < n && p.get_char(i + 2) == ':') {
                return false;
            }
        }
        if c == '\\' && (digit_char(d) || d == 'k' || d == 'K' || d == 'G') {
            return false;
        }
        if d == '+' && (c == '+' || c == '*' || c == '?' || c == '}') {
            return false;
        }
        if i + 2 < n && digit_char(c) && digit_char(d) && digit_char(p.get_char(i + 2)) {
            return false;
        }
    }
    true
}

/// Tests whether a pattern is plain.
pub fn plain_pattern(p: &str) -> (r: bool)
    ensures
        r == is_plain_pattern(p@),
{
    let n = p.unicode_len();
    if n > MAX_PATTERN_LENGTH {
        return false;
    }
    let mut count: usize = 0;
    let mut i: usize = 0;
    while i < n
        invariant
            n == p@.len(),
            n <= MAX_PATTERN_LENGTH,
            i <= n,
            count == braces(p@, i as int),
            count <= MAX_PATTERN_BRACES,
            forall|k: int| 0 <= k < i ==> #[trigger] plain_at(p@, k),
        decreases n - i,
    {
        if p.get_char(i) == '{' {
            if count == MAX_PATTERN_BRACES {
                proof {
                    lemma_braces_grow(p@, i + 1, n as int);
                }
                return false;
            }
            count = count + 1;
        }
        if !plain_place(p, n, i) {
            return false;
        }
        i = i + 1;
    }
    true
}

fn keys_plain(node: &Value, members: &Vec<(&String, &Value)>) -> (r: bool)
    requires
        json_of(*node) == Json::Object(entries_json(members@)),
    ensures
        r == keys_are_plain(json_of(*node)->Object_0, 0),
{
    let ghost ms = json_of(*node)->Object_0;
    let mut i: usize = 0;
    while i < members.len()
        invariant
            json_of(*node) == Json::Object(entries_json(members@)),
            ms == json_of(*node)->Object_0,
            ms.len() == members@.len(),
            i <= members.len(),
            keys_are_plain(ms, 0) == keys_are_plain(ms, i as int),
        decreases members.len() - i,
    {
        proof {
            lemma_member(json_of(*node), members@, i as int);
        }
        if !plain_pattern(members[i].0.as_str()) {
            return false;
        }
        i = i + 1;
    }
    true
}

fn plain_patterns_held(node: &Value) -> (r: bool)
    ensures
        r == holds_plain_patterns(json_of(*node)),
{
    match lookup(node, "pattern") {
        Some(value) => match as_str(value) {
            Some(p) => {
                if !plain_pattern(p) {
                    return false;
                }
            },
            None => {},
        },
        None => {},
    }
    match lookup(node, "patternProperties") {
        Some(value) => match entries(value) {
            Some(members) => keys_plain(value, &members),
            None => true,
        },
        None => true,
    }
}

fn patterns_plain_at(node: &Value) -> (r: bool)
    ensures
        r == patterns_are_plain(json_of(*node)),
    decreases json_of(*node), 0nat,
{
    match entries(node) {
        Some(members) => {
            if !plain_patterns_held(node) {
                return false;
            }
            let ghost ms = json_of(*node)->Object_0;
            let mut i: usize = 0;
            while i < members.len()
                invariant
                    json_of(*node) == Json::Object(entries_json(members@)),
                    ms == json_of(*node)->Object_0,
                    ms.len() == members@.len(),
                    i <= members.len(),
                    member_patterns_are_plain(ms, 0) == member_patterns_are_plain(ms, i as int),
                decreases members.len() - i,
            {
                proof {
                    lemma_member(json_of(*node), members@, i as int);
                }
                if !patterns_plain_at(members[i].1) {
                    return false;
                }
                i = i + 1;
            }
            true
        },
        None => match as_array(node) {
            Some(items) => {
                let ghost list = json_of(*node)->Array_0;
                let mut i: usize = 0;
                while i < items.len()
                    invariant
                        json_of(*node) == Json::Array(values_json(items@)),
                        list == json_of(*node)->Array_0,
                        i <= items.len(),
                        item_patterns_are_plain(list, 0) == item_patterns_are_plain(list, i as int),
                    decreases items.len() - i,
                {
                    proof {
                        lemma_item(json_of(*node), items@, i as int);
                    }
                    if !patterns_plain_at(&items[i]) {
                        return false;
                    }
                    i = i + 1;
                }
                true
            },
            None => true,
        },
    }
}

/// Tests whether every pattern of a schema is plain, so that the schema may
/// be given to the engine.
pub fn check_patterns(schema: &Value) -> (ok: bool)
    ensures
        ok == patterns_are_plain(json_of(*schema)),
{
    patterns_plain_at(schema)
}

} // verus!
