//! JSON text framing for request bodies, and the JSON value type of `serde_json`.
use vstd::prelude::*;
use vstd::string::*;
use crate::text::digit_char;

verus! {

/// A JSON document as `serde_json` represents it; carried through the
/// library untouched.
#[verifier::external_type_specification]
#[verifier::external_body]
pub struct ExJsonValue(serde_json::Value);

/// The compact JSON text of a value, as `serde_json` writes it.
pub uninterp spec fn json_value_text(v: serde_json::Value) -> Seq<char>;

/// `serde_json::Value::Null`, the JSON `null` literal: its text is `null`.
#[verifier::external_body]
pub(crate) fn json_null() -> (v: serde_json::Value)
    ensures
        json_value_text(v) == seq!['n', 'u', 'l', 'l'],
{
    serde_json::Value::Null
}

/// Compact JSON text of a value: `<serde_json::Value as Display>::fmt`
/// through `to_string`, which writes what `serde_json::to_string` writes
/// (the text depends on the value alone).
#[verifier::external_body]
pub(crate) fn json_text(v: &serde_json::Value) -> (s: String)
    ensures
        s@ == json_value_text(*v),
{
    v.to_string()
}

/// Lower-case hexadecimal digit for `d` (0..=15).
pub open spec fn hex_char(d: int) -> char {
    if d < 10 {
        digit_char(d)
    } else if d == 10 {
        'a'
    } else if d == 11 {
        'b'
    } else if d == 12 {
        'c'
    } else if d == 13 {
        'd'
    } else if d == 14 {
        'e'
    } else {
        'f'
    }
}

/// How one character is written inside a JSON string literal.
pub open spec fn escape_char(c: char) -> Seq<char> {
    if c == '"' {
        seq!['\\', '"']
    } else if c == '\\' {
        seq!['\\', '\\']
    } else if c == '\u{8}' {
        seq!['\\', 'b']
    } else if c == '\t' {
        seq!['\\', 't']
    } else if c == '\n' {
        seq!['\\', 'n']
    } else if c == '\u{c}' {
        seq!['\\', 'f']
    } else if c == '\r' {
        seq!['\\', 'r']
    } else if (c as int) < 0x20 {
        seq!['\\', 'u', '0', '0', hex_char((c as int) / 16), hex_char((c as int) % 16)]
    } else {
        seq![c]
    }
}

/// The escaped contents of a JSON string literal.
pub open spec fn escape_chars(s: Seq<char>) -> Seq<char>
    decreases s.len(),
{
    if s.len() == 0 {
        seq![]
    } else {
        escape_chars(s.drop_last()) + escape_char(s.last())
    }
}

/// A JSON string literal for `s`, quotes included.
pub open spec fn json_quote(s: Seq<char>) -> Seq<char> {
    seq!['"'] + escape_chars(s) + seq!['"']
}

/// `serde_json::to_string` on a `&str`: the JSON string literal of `s`,
/// quotes included, escaped as `format_escaped_str` escapes (`\"`, `\\`,
/// `\b`, `\t`, `\n`, `\f`, `\r`, other control characters as `\u00xx`
/// with lower-case hex digits, everything else as it is). Serialising a
/// string into memory cannot fail: the writer is a `Vec<u8>`, whose writes
/// do not fail, and a string has no map keys to reject.
#[verifier::external_body]
fn json_string_literal(s: &str) -> (t: String)
    ensures
        t@ == json_quote(s@),
{
    match serde_json::to_string(s) {
        Ok(t) => t,
        Err(_) => String::new(),
    }
}

/// Appends a JSON string literal for `s` (quotes included), as
/// `serde_json` writes strings.
pub fn push_json_string(out: &mut String, s: &str)
    ensures
        final(out)@ == old(out)@ + json_quote(s@),
{
    let literal = json_string_literal(s);
    out.append(literal.as_str());
}

} // verus!
