use vstd::prelude::*;

use crate::text::{decimal, push_decimal};

verus! {

/// The lower-case hexadecimal digit for `d` (0 to 15).
pub open spec fn hex_digit(d: u32) -> char {
    if d < 10 {
        (d + 48) as char
    } else {
        (d + 87) as char
    }
}

/// How one character is written inside a JSON string: the quote, the
/// backslash and the control characters are escaped, everything else stands
/// as it is.
pub open spec fn json_escape_char(c: char) -> Seq<char> {
    if c == '"' {
        seq!['\\', '"']
    } else if c == '\\' {
        seq!['\\', '\\']
    } else if c == '\u{8}' {
        seq!['\\', 'b']
    } else if c == '\u{c}' {
        seq!['\\', 'f']
    } else if c == '\n' {
        seq!['\\', 'n']
    } else if c == '\r' {
        seq!['\\', 'r']
    } else if c == '\t' {
        seq!['\\', 't']
    } else if (c as u32) < 32 {
        seq!['\\', 'u', '0', '0', hex_digit((c as u32) / 16), hex_digit((c as u32) % 16)]
    } else {
        seq![c]
    }
}

/// The characters of `s`, each escaped for a JSON string.
pub open spec fn json_escaped(s: Seq<char>) -> Seq<char>
    decreases s.len(),
{
    if s.len() == 0 {
        Seq::empty()
    } else {
        json_escaped(s.drop_last()) + json_escape_char(s.last())
    }
}

/// `s` as a JSON string literal.
pub open spec fn json_quoted(s: Seq<char>) -> Seq<char> {
    seq!['"'] + json_escaped(s) + seq!['"']
}

/// A JSON boolean.
pub open spec fn json_bool(b: bool) -> Seq<char> {
    if b {
        "true"@
    } else {
        "false"@
    }
}

/// The message that tells a page the shared text: a JSON object with the
/// members `data` (the text) and `type` (`content`), in that order.
pub open spec fn content_message(text: Seq<char>) -> Seq<char> {
    "{\"data\":"@ + json_quoted(text) + ",\"type\":\"content\"}"@
}

/// What `serde_json` finds under `key` in the JSON text `text` when it reads
/// that member as a string: `None` when `text` is not JSON, is not an object,
/// has no member `key`, or that member is not a string.
pub uninterp spec fn json_member_str(text: Seq<char>, key: Seq<char>) -> Option<Seq<char>>;

/// `serde_json::to_string` on a `str`.
///
/// Claims that the result is `s` between double quotes, with `"`, `\` and the
/// control characters below U+0020 escaped as serde_json's escape table does
/// (the short forms `\b \t \n \f \r`, else `\u00XX` with lower-case hex) and
/// every other character copied as it is. Serialising a `str` cannot fail.
#[verifier::external_body]
pub(crate) fn json_string(s: &str) -> (r: String)
    ensures
        r@ == json_quoted(s@),
{
    match serde_json::to_string(s) {
        Ok(t) => t,
        Err(_) => String::new(),
    }
}

/// `serde_json::from_str::<serde_json::Value>`, followed by reading the member
/// `key` of the parsed value with `Value::get` and `Value::as_str`.
///
/// Claims that the result is the named function `json_member_str` of the
/// text and the key, and one fact of the parser: a content message, whose
/// `data` string is escaped as `json_string` writes it, reads back under
/// `data` as the text it was made from (serde_json's string parser undoes
/// each of those escapes, and the object has no other `data` member). What
/// JSON parsing accepts in general is left unstated.
#[verifier::external_body]
pub(crate) fn json_str_member(text: &str, key: &str) -> (r: Option<String>)
    ensures
        match r {
            Some(v) => json_member_str(text@, key@) == Some(v@),
            None => json_member_str(text@, key@) is None,
        },
        forall|t: Seq<char>|
            #[trigger] content_message(t) == text@ && key@ == "data"@ ==> r is Some && r->0@ == t,
{
    match serde_json::from_str::<serde_json::Value>(text) {
        Ok(parsed) => parsed.get(key).and_then(serde_json::Value::as_str).map(String::from),
        Err(_) => None,
    }
}

/// The JSON text for a boolean.
pub fn bool_text(b: bool) -> (s: String)
    ensures
        s@ == json_bool(b),
{
    if b {
        "true".to_string()
    } else {
        "false".to_string()
    }
}

/// The decimal notation of `n`.
pub fn decimal_text(n: u64) -> (s: String)
    ensures
        s@ == decimal(n as nat),
{
    let mut s = String::new();
    push_decimal(&mut s, n);
    s
}

} // verus!
