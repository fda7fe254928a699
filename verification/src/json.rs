//! The JSON text that the library reads from and writes to the Python workers,
//! produced and parsed by `serde_json`.

use vstd::prelude::*;

use crate::text::digit_char;

verus! {

/// How `serde_json` writes one character inside a string literal: `"` and
/// `\` behind a backslash; backspace, tab, line feed, form feed and carriage
/// return as `\b`, `\t`, `\n`, `\f`, `\r`; every other control character
/// below U+0020 as `\u00` and two lower-case hex digits; anything else as is.
pub open spec fn json_escaped_char(c: char) -> Seq<char> {
    let u = c as u32;
    if u == 0x22 {
        seq!['\\', '"']
    } else if u == 0x5c {
        seq!['\\', '\\']
    } else if u == 0x08 {
        seq!['\\', 'b']
    } else if u == 0x09 {
        seq!['\\', 't']
    } else if u == 0x0a {
        seq!['\\', 'n']
    } else if u == 0x0c {
        seq!['\\', 'f']
    } else if u == 0x0d {
        seq!['\\', 'r']
    } else if u < 0x20 {
        seq!['\\', 'u', '0', '0', digit_char((u / 16) as nat), digit_char((u % 16) as nat)]
    } else {
        seq![c]
    }
}

/// The escaped text of `s`, character by character.
pub open spec fn json_escaped(s: Seq<char>) -> Seq<char>
    decreases s.len(),
{
    if s.len() == 0 {
        Seq::empty()
    } else {
        json_escaped(s.drop_last()) + json_escaped_char(s.last())
    }
}

/// The JSON string literal that `serde_json` writes for the text `s`: the
/// escaped text between double quotes.
pub open spec fn json_quoted(s: Seq<char>) -> Seq<char> {
    seq!['"'] + json_escaped(s) + seq!['"']
}

/// The string member `key` of the JSON object that `line` holds: `None` when
/// `line` is not JSON, is not an object, lacks the member, or the member is
/// not a string.
pub uninterp spec fn json_str_member(line: Seq<char>, key: Seq<char>) -> Option<Seq<char>>;

/// The member `key` of the JSON object that `line` holds, read as an unsigned
/// 64-bit integer: `None` when it is missing or is not such a number.
pub uninterp spec fn json_u64_member(line: Seq<char>, key: Seq<char>) -> Option<u64>;

/// The message of the error that `serde_json` reports when `line` is not
/// valid JSON; `None` when `line` parses.
pub uninterp spec fn json_parse_error(line: Seq<char>) -> Option<Seq<char>>;

/// `serde_json::to_string` applied to a `&str`: the string literal written
/// by `format_escaped_str` (see [`json_quoted`]). Serializing a string into
/// an in-memory buffer cannot fail (the crate's documentation names only a
/// failing `Serialize` impl or non-string map keys as causes).
#[verifier::external_body]
pub fn quote(s: &str) -> (r: String)
    ensures
        r@ == json_quoted(s@),
{
    serde_json::to_string(s).unwrap_or_default()
}

/// `serde_json::from_str::<serde_json::Value>` followed by `Value::get(key)`
/// and `Value::as_str`: the string member `key` of the object in `line`.
#[verifier::external_body]
pub fn str_member(line: &str, key: &str) -> (r: Option<String>)
    ensures
        r is Some <==> json_str_member(line@, key@) is Some,
        r matches Some(v) ==> json_str_member(line@, key@) == Some(v@),
{
    match serde_json::from_str::<serde_json::Value>(line) {
        Ok(v) => v.get(key).and_then(|m| m.as_str()).map(|m| m.to_string()),
        Err(_) => None,
    }
}

/// `serde_json::from_str::<serde_json::Value>` followed by `Value::get(key)`
/// and `Value::as_u64`: the unsigned integer member `key` of the object in `line`.
#[verifier::external_body]
pub fn u64_member(line: &str, key: &str) -> (r: Option<u64>)
    ensures
        r == json_u64_member(line@, key@),
{
    match serde_json::from_str::<serde_json::Value>(line) {
        Ok(v) => v.get(key).and_then(|m| m.as_u64()),
        Err(_) => None,
    }
}

/// `serde_json::from_str::<serde_json::Value>`: the error's message when `line`
/// is not valid JSON, `None` when it parses.
#[verifier::external_body]
pub fn parse_error(line: &str) -> (r: Option<String>)
    ensures
        r is Some <==> json_parse_error(line@) is Some,
        r matches Some(v) ==> json_parse_error(line@) == Some(v@),
{
    match serde_json::from_str::<serde_json::Value>(line) {
        Ok(_) => None,
        Err(e) => Some(e.to_string()),
    }
}

} // verus!
