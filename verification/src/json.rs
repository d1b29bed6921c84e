//! JSON, read and written by `serde_json`.

use crate::text::{joined, texts};
use vstd::prelude::*;

verus! {

/// A JSON value of `serde_json`.
#[verifier::external_type_specification]
#[verifier::external_body]
pub struct ExValue(serde_json::Value);

/// The error of a failed `serde_json` call.
#[verifier::external_type_specification]
#[verifier::external_body]
pub struct ExError(serde_json::Error);

/// The members of a JSON object whose values are strings, by their names. Other JSON
/// values have none.
pub uninterp spec fn string_members(v: serde_json::Value) -> Map<Seq<char>, Seq<char>>;

/// The string members of each element of the JSON array that the bytes write, or `None`
/// where they write no JSON array.
pub uninterp spec fn parsed_elements(body: Seq<u8>) -> Option<Seq<Map<Seq<char>, Seq<char>>>>;

/// The string members of each value.
pub open spec fn members_of(v: Seq<serde_json::Value>) -> Seq<Map<Seq<char>, Seq<char>>> {
    v.map_values(|x: serde_json::Value| string_members(x))
}

/// The string member of that name, if there is one.
pub open spec fn member(m: Map<Seq<char>, Seq<char>>, name: Seq<char>) -> Option<Seq<char>> {
    if m.dom().contains(name) {
        Some(m[name])
    } else {
        None
    }
}

/// The hexadecimal digit of a number below sixteen, in lower case.
pub open spec fn lower_hex_digit(d: int) -> char {
    if d < 10 {
        ('0' as int + d) as char
    } else {
        ('a' as int + d - 10) as char
    }
}

/// A character as it stands in a JSON string.
pub open spec fn json_char(c: char) -> Seq<char> {
    if c == '"' {
        seq!['\\', '"']
    } else if c == '\\' {
        seq!['\\', '\\']
    } else if c == '\u{8}' {
        seq!['\\', 'b']
    } else if c == '\u{9}' {
        seq!['\\', 't']
    } else if c == '\u{a}' {
        seq!['\\', 'n']
    } else if c == '\u{c}' {
        seq!['\\', 'f']
    } else if c == '\u{d}' {
        seq!['\\', 'r']
    } else if '\u{20}' > c {
        seq!['\\', 'u', '0', '0', lower_hex_digit(c as int / 16), lower_hex_digit(c as int % 16)]
    } else {
        seq![c]
    }
}

/// `json_char` as a function value.
pub open spec fn json_chars() -> spec_fn(char) -> Seq<char> {
    |c: char| json_char(c)
}

/// Text as a JSON string.
pub open spec fn json_quoted(s: Seq<char>) -> Seq<char> {
    seq!['"'] + joined(s, json_chars()) + seq!['"']
}

/// Texts as JSON strings with commas between them.
pub open spec fn json_items(v: Seq<Seq<char>>) -> Seq<char>
    decreases v.len(),
{
    if v.len() == 0 {
        Seq::empty()
    } else if v.len() == 1 {
        json_quoted(v[0])
    } else {
        json_items(v.drop_last()) + seq![','] + json_quoted(v.last())
    }
}

/// Texts as a JSON array of strings.
pub open spec fn json_list(v: Seq<Seq<char>>) -> Seq<char> {
    seq!['['] + json_items(v) + seq![']']
}

/// A truth value in JSON.
pub open spec fn json_bool(b: bool) -> Seq<char> {
    if b {
        "true"@
    } else {
        "false"@
    }
}

/// `serde_json::from_slice` into a vector of values. Which values come out, and whether
/// the call fails, depends on the bytes alone; the grammar is `serde_json`'s own.
#[verifier::external_body]
pub(crate) fn parse_elements(body: &[u8]) -> (r: Result<Vec<serde_json::Value>, serde_json::Error>)
    ensures
        match r {
            Ok(v) => parsed_elements(body@) == Some(members_of(v@)),
            Err(_) => parsed_elements(body@) is None,
        },
{
    serde_json::from_slice(body)
}

/// `serde_json::Value::get` with a member name, and `as_str` on what it finds: the text of
/// that member where the value is an object and the member a string.
#[verifier::external_body]
pub(crate) fn member_text(v: &serde_json::Value, name: &str) -> (r: Option<String>)
    ensures
        match r {
            Some(t) => member(string_members(*v), name@) == Some(t@),
            None => member(string_members(*v), name@) is None,
        },
{
    v.get(name)?.as_str().map(str::to_string)
}

/// `serde_json::Value::from` a string, displayed: the text in double quotes, with quotes,
/// backslashes and control characters escaped.
#[verifier::external_body]
pub(crate) fn json_string(s: &str) -> (r: String)
    ensures
        r@ == json_quoted(s@),
{
    serde_json::Value::from(s).to_string()
}

/// `serde_json::Value::from` a slice of strings, displayed: the strings as JSON, commas
/// between them, in square brackets.
#[verifier::external_body]
pub(crate) fn json_string_list(v: &Vec<String>) -> (r: String)
    ensures
        r@ == json_list(texts(v@)),
{
    serde_json::Value::from(v.as_slice()).to_string()
}

} // verus!
