//! The JSON values that the library reads and the JSON text that it writes,
//! through `serde_json`.
use vstd::prelude::*;
use zed_extension_api::serde_json;

verus! {

#[verifier::external_type_specification]
#[verifier::external_body]
pub struct ExValue(serde_json::Value);

/// The value that `serde_json::from_str` reads from the characters `s`, if
/// they are JSON text.
pub uninterp spec fn parsed_json_of(s: Seq<char>) -> Option<serde_json::Value>;

/// Whether `s` is JSON text.
pub open spec fn is_json_text(s: Seq<char>) -> bool {
    parsed_json_of(s) is Some
}

/// Relies on `serde_json::from_str`: the result depends on the text alone;
/// the error is turned into its message.
#[verifier::external_body]
pub(crate) fn parse_json(s: &str) -> (r: Result<serde_json::Value, String>)
    ensures
        match r {
            Ok(v) => parsed_json_of(s@) == Some(v),
            Err(_) => parsed_json_of(s@) is None,
        },
{
    serde_json::from_str::<serde_json::Value>(s).map_err(|e| e.to_string())
}

/// The string held by the member `key` of the JSON value `v`, if `v` is an
/// object with such a member and it is a string.
pub uninterp spec fn str_member_of(v: serde_json::Value, key: Seq<char>) -> Option<Seq<char>>;

/// Relies on `serde_json::Value::get` and `serde_json::Value::as_str`: the
/// string member `key` of an object; the result depends on the value and
/// the key alone.
#[verifier::external_body]
pub(crate) fn json_str_member(v: &serde_json::Value, key: &str) -> (r: Option<String>)
    ensures
        match r {
            Some(t) => str_member_of(*v, key@) == Some(t@),
            None => str_member_of(*v, key@) is None,
        },
{
    v.get(key).and_then(serde_json::Value::as_str).map(|t| t.to_string())
}

/// The lowercase hexadecimal digit `d`.
pub open spec fn hex_digit(d: int) -> char {
    seq!['0', '1', '2', '3', '4', '5', '6', '7', '8', '9', 'a', 'b', 'c', 'd', 'e', 'f'][d]
}

/// How `serde_json` writes the character `c` inside a string literal: `"`
/// and `\` behind a backslash, the control characters with a short escape
/// where JSON has one and as `\u00XX` otherwise, every other character as
/// it is.
pub open spec fn json_escaped_char(c: char) -> Seq<char> {
    if c == '"' {
        seq!['\\', '"']
    } else if c == '\\' {
        seq!['\\', '\\']
    } else if c == '\u{8}' {
        seq!['\\', 'b']
    } else if c == '\t' {
        seq!['\\', 't']
    } else if c == '\n' {
        seq!['\\', 'n']
    } else if c == '\u{c}' {
        seq!['\\', 'f']
    } else if c == '\r' {
        seq!['\\', 'r']
    } else if (c as u32) < 0x20 {
        seq!['\\', 'u', '0', '0', hex_digit((c as u32 / 16) as int), hex_digit((c as u32 % 16) as int)]
    } else {
        seq![c]
    }
}

pub open spec fn json_escaped(s: Seq<char>) -> Seq<char>
    decreases s.len(),
{
    if s.len() == 0 {
        Seq::empty()
    } else {
        json_escaped_char(s[0]) + json_escaped(s.drop_first())
    }
}

/// The JSON string literal for `s`.
pub open spec fn json_string_of(s: Seq<char>) -> Seq<char> {
    seq!['"'] + json_escaped(s) + seq!['"']
}

/// Relies on `serde_json::to_string` on a `str`: it writes into a `Vec`, so
/// it does not fail, and it quotes and escapes as `format_escaped_str` does.
#[verifier::external_body]
pub(crate) fn json_string(s: &str) -> (r: Result<String, String>)
    ensures
        r is Ok,
        r matches Ok(q) ==> q@ == json_string_of(s@),
{
    serde_json::to_string(s).map_err(|e| e.to_string())
}

} // verus!
