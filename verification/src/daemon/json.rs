//! One level of a JSON document as the settings daemon protocol reads it:
//! the kind of the top value, and for arrays and objects the compact JSON
//! text of each element (read again with `parse_json` when needed).

use vstd::prelude::*;
use crate::text::{hex_digit, str_eq};
use serde_json::Value;

verus! {

/// One parsed JSON value; nested values are kept as their compact JSON
/// text. Objects keep their members in `serde_json`'s key order.
#[derive(Debug, Clone)]
pub enum JsonValue {
    Null,
    Bool(bool),
    /// The number as `serde_json` writes it.
    Number(String),
    Str(String),
    Array(Vec<String>),
    Object(Vec<(String, String)>),
}

/// Mathematical view of a [`JsonValue`].
pub enum JsonSpec {
    Null,
    Bool(bool),
    Number(Seq<char>),
    Str(Seq<char>),
    Array(Seq<Seq<char>>),
    Object(Seq<(Seq<char>, Seq<char>)>),
}

/// Views of object members: (name, member JSON text).
pub open spec fn members_view(members: Seq<(String, String)>) -> Seq<(Seq<char>, Seq<char>)> {
    members.map_values(|m: (String, String)| (m.0@, m.1@))
}

/// Views of array elements (their JSON texts).
pub open spec fn items_view(items: Seq<String>) -> Seq<Seq<char>> {
    items.map_values(|t: String| t@)
}

impl View for JsonValue {
    type V = JsonSpec;

    open spec fn view(&self) -> JsonSpec {
        match self {
            JsonValue::Null => JsonSpec::Null,
            JsonValue::Bool(b) => JsonSpec::Bool(*b),
            JsonValue::Number(n) => JsonSpec::Number(n@),
            JsonValue::Str(s) => JsonSpec::Str(s@),
            JsonValue::Array(items) => JsonSpec::Array(items_view(items@)),
            JsonValue::Object(members) => JsonSpec::Object(members_view(members@)),
        }
    }
}

/// What `serde_json` makes of a JSON text (`serde_json::from_str` into a
/// `Value`, nested values written back as compact JSON text), or the text
/// of its parse error.
pub uninterp spec fn parsed_json(text: Seq<char>) -> Result<JsonSpec, Seq<char>>;

pub open spec fn json_result_view(r: Result<JsonValue, String>) -> Result<JsonSpec, Seq<char>> {
    match r {
        Ok(v) => Ok(v@),
        Err(e) => Err(e@),
    }
}

/// Parses a JSON text with `serde_json::from_str` into a `serde_json::Value`
/// and hands back its top level: the value's kind, and the compact JSON
/// text (`Value::to_string`) of each array element and object member.
/// On failure, the parse error's message (`Error::to_string`). The
/// contract names the outcome (`parsed_json`); nothing more is claimed.
#[verifier::external_body]
pub(crate) fn parse_json(text: &str) -> (r: Result<JsonValue, String>)
    ensures
        json_result_view(r) == parsed_json(text@),
{
    match serde_json::from_str::<Value>(text) {
        Ok(Value::Null) => Ok(JsonValue::Null),
        Ok(Value::Bool(b)) => Ok(JsonValue::Bool(b)),
        Ok(Value::Number(n)) => Ok(JsonValue::Number(n.to_string())),
        Ok(Value::String(s)) => Ok(JsonValue::Str(s)),
        Ok(Value::Array(items)) => Ok(JsonValue::Array(items.iter().map(|v| v.to_string()).collect())),
        Ok(Value::Object(members)) => Ok(JsonValue::Object(members.iter().map(|(k, v)| (k.clone(), v.to_string())).collect())),
        Err(e) => Err(e.to_string()),
    }
}

/// How `serde_json` writes one character inside a JSON string: `"` and
/// `\` backslash-escaped, the short escapes for backspace, tab, newline,
/// form feed and carriage return, other control characters as `\u00XX`
/// (lowercase hex), everything else unchanged.
pub open spec fn json_escape_char(c: char) -> Seq<char> {
    if c == '"' {
        seq!['\\', '"']
    } else if c == '\\' {
        seq!['\\', '\\']
    } else if c == '\x08' {
        seq!['\\', 'b']
    } else if c == '\t' {
        seq!['\\', 't']
    } else if c == '\n' {
        seq!['\\', 'n']
    } else if c == '\x0c' {
        seq!['\\', 'f']
    } else if c == '\r' {
        seq!['\\', 'r']
    } else if (c as u32) < 0x20 {
        seq!['\\', 'u', '0', '0', hex_digit(((c as u32) / 16) as nat), hex_digit(((c as u32) % 16) as nat)]
    } else {
        seq![c]
    }
}

pub open spec fn json_escape(s: Seq<char>) -> Seq<char>
    decreases s.len(),
{
    if s.len() == 0 {
        Seq::empty()
    } else {
        json_escape(s.drop_last()) + json_escape_char(s.last())
    }
}

/// A string as a JSON string literal, the way `serde_json` writes it.
pub open spec fn json_string(s: Seq<char>) -> Seq<char> {
    seq!['"'] + json_escape(s) + seq!['"']
}

/// Writes a string as a JSON string literal (`serde_json::to_string` on a
/// `&str`): quoted, with the escapes of `json_escape_char`. Writing a
/// string cannot fail in `serde_json`; the empty fallback is never taken.
#[verifier::external_body]
pub(crate) fn json_quote(s: &str) -> (quoted: String)
    ensures
        quoted@ == json_string(s@),
{
    serde_json::to_string(s).unwrap_or_default()
}

/// The text of the first member named `key` of the pairs.
pub open spec fn find_member(members: Seq<(Seq<char>, Seq<char>)>, key: Seq<char>) -> Option<Seq<char>>
    decreases members.len(),
{
    if members.len() == 0 {
        None
    } else if members[0].0 == key {
        Some(members[0].1)
    } else {
        find_member(members.drop_first(), key)
    }
}

/// `Value::get(key)` on one level: the member's JSON text for an object
/// that has it, nothing otherwise.
pub open spec fn member(v: JsonSpec, key: Seq<char>) -> Option<Seq<char>> {
    match v {
        JsonSpec::Object(members) => find_member(members, key),
        _ => None,
    }
}

/// `Value::as_bool` on a JSON text: the boolean it holds, if it is one.
pub open spec fn text_as_bool(text: Seq<char>) -> Option<bool> {
    match parsed_json(text) {
        Ok(JsonSpec::Bool(b)) => Some(b),
        _ => None,
    }
}

/// `Value::as_str` on a JSON text: the string it holds, if it is one.
pub open spec fn text_as_str(text: Seq<char>) -> Option<Seq<char>> {
    match parsed_json(text) {
        Ok(JsonSpec::Str(s)) => Some(s),
        _ => None,
    }
}

/// Looks up the member `key` of an object (`Value::get`).
pub fn get_member<'a>(v: &'a JsonValue, key: &str) -> (text: Option<&'a String>)
    ensures
        match text {
            Some(t) => member(v@, key@) == Some(t@),
            None => member(v@, key@) is None,
        },
{
    match v {
        JsonValue::Object(members) => {
            let n = members.len();
            let ghost pairs = members_view(members@);
            let mut i: usize = 0;
            assert(pairs.skip(0) =~= pairs);
            while i < n
                invariant
                    i <= n,
                    n == members@.len(),
                    pairs == members_view(members@),
                    v@ == JsonSpec::Object(pairs),
                    find_member(pairs, key@) == find_member(pairs.skip(i as int), key@),
                decreases n - i,
            {
                let (name, value) = &members[i];
                assert(pairs[i as int] == (name@, value@));
                assert(pairs.skip(i as int)[0] == (name@, value@));
                if str_eq(name.as_str(), key) {
                    assert(pairs.skip(i as int).len() > 0);
                    assert(find_member(pairs.skip(i as int), key@) == Some(value@));
                    assert(v@ == JsonSpec::Object(pairs));
                    return Some(value);
                }
                assert(pairs.skip(i as int).drop_first() =~= pairs.skip(i + 1));
                i += 1;
            }
            assert(pairs.skip(n as int).len() == 0);
            None
        },
        _ => None,
    }
}

/// The boolean a JSON text holds (`Value::as_bool`), if it is one.
pub fn json_as_bool(text: &str) -> (b: Option<bool>)
    ensures
        b == text_as_bool(text@),
{
    match parse_json(text) {
        Ok(JsonValue::Bool(b)) => Some(b),
        _ => None,
    }
}

/// The string a JSON text holds (`Value::as_str`), if it is one.
pub fn json_as_str(text: &str) -> (s: Option<String>)
    ensures
        match s {
            Some(s) => text_as_str(text@) == Some(s@),
            None => text_as_str(text@) is None,
        },
{
    match parse_json(text) {
        Ok(JsonValue::Str(s)) => Some(s),
        _ => None,
    }
}

} // verus!
