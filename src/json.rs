//! Reading JSON text through serde_json.
use vstd::prelude::*;

verus! {

/// What a JSON pointer addresses inside a JSON text.
#[derive(Clone, Debug)]
pub enum JsonAt {
    /// The text is not a JSON document.
    NotJson,
    /// The document holds no value at the pointer.
    Absent,
    /// A string value, unquoted.
    Str(String),
    /// An array value, as compact JSON text.
    Array(String),
    /// An object value, as compact JSON text.
    Object(String),
    /// A null, boolean or number value, as compact JSON text.
    Scalar(String),
}

/// The value that the JSON pointer `pointer` addresses in the JSON text `text`,
/// as serde_json reads it.
pub uninterp spec fn json_at_of(text: Seq<char>, pointer: Seq<char>) -> JsonAt;

/// The lower-case hexadecimal digit of `n`, for `n < 16`.
pub open spec fn hex_digit(n: u32) -> char {
    "0123456789abcdef"@[n as int]
}

/// How a JSON string literal writes the character `c`: quote and backslash
/// behind a backslash, the short escapes for backspace, tab, line feed, form
/// feed and carriage return, other control characters as `\u00xx`, and every
/// other character as it is.
pub open spec fn escape_char(c: char) -> Seq<char> {
    if c == '"' {
        seq!['\\', '"']
    } else if c == '\\' {
        seq!['\\', '\\']
    } else if c == '\u{8}' {
        seq!['\\', 'b']
    } else if c == '\t' {
        seq!['\\', 't']
    } else if c == '\n' {
        seq!['\\', 'n']
    } else if c == '\u{c}' {
        seq!['\\', 'f']
    } else if c == '\r' {
        seq!['\\', 'r']
    } else if (c as u32) < 32 {
        seq!['\\', 'u', '0', '0', hex_digit((c as u32) / 16), hex_digit((c as u32) % 16)]
    } else {
        seq![c]
    }
}

/// The characters `s`, each escaped.
pub open spec fn escaped(s: Seq<char>) -> Seq<char>
    decreases s.len(),
{
    if s.len() == 0 {
        Seq::empty()
    } else {
        escaped(s.drop_last()) + escape_char(s.last())
    }
}

/// The JSON string literal of the characters `s`.
pub open spec fn json_quoted(s: Seq<char>) -> Seq<char> {
    seq!['"'] + escaped(s) + seq!['"']
}

/// Relies on serde_json::from_str (into serde_json::Value), Value::pointer
/// and Value's Display: the result depends on the two texts alone.
#[verifier::external_body]
pub(crate) fn json_at(text: &str, pointer: &str) -> (r: JsonAt)
    ensures
        r == json_at_of(text@, pointer@),
{
    match serde_json::from_str::<serde_json::Value>(text) {
        Err(_) => JsonAt::NotJson,
        Ok(v) => match v.pointer(pointer) {
            None => JsonAt::Absent,
            Some(serde_json::Value::String(s)) => JsonAt::Str(s.clone()),
            Some(x) => match x {
                serde_json::Value::Array(_) => JsonAt::Array(x.to_string()),
                serde_json::Value::Object(_) => JsonAt::Object(x.to_string()),
                _ => JsonAt::Scalar(x.to_string()),
            },
        },
    }
}

/// Relies on serde_json::to_string on a `str`: the characters in double
/// quotes, each escaped as its escape table says.
#[verifier::external_body]
pub(crate) fn quote(s: &str) -> (r: String)
    ensures
        r@ == json_quoted(s@),
{
    serde_json::to_string(s).unwrap_or_default()
}

/// The string value at `pointer` in `text`, if there is one.
pub open spec fn str_at(text: Seq<char>, pointer: Seq<char>) -> Option<Seq<char>> {
    match json_at_of(text, pointer) {
        JsonAt::Str(s) => Some(s@),
        _ => None,
    }
}

/// The string value at `pointer` in `text`, if there is one.
pub fn string_at(text: &str, pointer: &str) -> (r: Option<String>)
    ensures
        match r {
            Some(s) => str_at(text@, pointer@) == Some(s@),
            None => str_at(text@, pointer@) is None,
        },
{
    match json_at(text, pointer) {
        JsonAt::Str(s) => Some(s),
        _ => None,
    }
}

} // verus!
