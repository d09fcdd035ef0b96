//! JSON text through `serde_json`.
use vstd::prelude::*;
use crate::text::opt_text;

verus! {

/// The lower-case hexadecimal digit for `d`.
pub open spec fn hex_digit(d: nat) -> char {
    if d < 10 {
        (48 + d) as char
    } else {
        (87 + d) as char
    }
}

/// How one character is written inside a JSON string literal.
pub open spec fn json_escape_char(c: char) -> Seq<char> {
    let u = c as u32;
    if c == '"' {
        seq!['\\', '"']
    } else if c == '\\' {
        seq!['\\', '\\']
    } else if u == 0x08 {
        seq!['\\', 'b']
    } else if u == 0x09 {
        seq!['\\', 't']
    } else if u == 0x0a {
        seq!['\\', 'n']
    } else if u == 0x0c {
        seq!['\\', 'f']
    } else if u == 0x0d {
        seq!['\\', 'r']
    } else if u < 0x20 {
        seq!['\\', 'u', '0', '0', hex_digit((u / 16) as nat), hex_digit((u % 16) as nat)]
    } else {
        seq![c]
    }
}

/// The escaped contents of a JSON string literal.
pub open spec fn json_escaped(s: Seq<char>) -> Seq<char>
    decreases s.len(),
{
    if s.len() == 0 {
        Seq::empty()
    } else {
        json_escaped(s.drop_last()) + json_escape_char(s.last())
    }
}

/// `s` as a JSON string literal: quoted, with `"`, `\` and the control
/// characters below U+0020 escaped.
pub open spec fn json_quote(s: Seq<char>) -> Seq<char> {
    seq!['"'] + json_escaped(s) + seq!['"']
}

/// `s` written as a JSON string literal (`serde_json::to_string` on a string).
///
/// The contract states what `serde_json`'s serializer writes for a string:
/// the quotes, the two-character escapes for `"`, `\`, backspace, tab, line
/// feed, form feed and carriage return, `\u00xx` with lower-case hex digits
/// for the other control characters below U+0020, and every other character
/// as it is. Serializing a string cannot fail, so the error case is not kept.
#[verifier::external_body]
pub(crate) fn json_string(s: &str) -> (r: String)
    ensures
        r@ == json_quote(s@),
{
    serde_json::to_string(s).unwrap_or_default()
}


/// The string member `key` of the JSON document `doc`, when `doc` parses as
/// JSON and that member is a string.
pub uninterp spec fn json_text_of(doc: Seq<char>, key: Seq<char>) -> Option<Seq<char>>;

/// The member `key` of the JSON document `doc` as a `u64`, when it is a
/// whole number in range.
pub uninterp spec fn json_count_of(doc: Seq<char>, key: Seq<char>) -> Option<u64>;

/// The boolean member `key` of the JSON document `doc`.
pub uninterp spec fn json_flag_of(doc: Seq<char>, key: Seq<char>) -> Option<bool>;

/// The numeric member `key` of the JSON document `doc`, converted from a
/// double to a whole `u64` the way `as` converts (toward zero, saturating).
pub uninterp spec fn json_whole_of(doc: Seq<char>, key: Seq<char>) -> Option<u64>;

/// The `url` string of the last element of the array member `key`.
pub uninterp spec fn json_last_url_of(doc: Seq<char>, key: Seq<char>) -> Option<Seq<char>>;

/// Whether `doc` parses as a JSON document.
pub uninterp spec fn json_parses(doc: Seq<char>) -> bool;

/// The number of elements of the array member `key` (none when it is not an array).
pub uninterp spec fn json_items_of(doc: Seq<char>, key: Seq<char>) -> nat;

/// The string member `field` of element `i` of the array member `key`.
pub uninterp spec fn json_item_text_of(doc: Seq<char>, key: Seq<char>, i: nat, field: Seq<char>) -> Option<Seq<char>>;

/// The member `field` of element `i` of the array member `key` as a `u64`.
pub uninterp spec fn json_item_count_of(doc: Seq<char>, key: Seq<char>, i: nat, field: Seq<char>) -> Option<u64>;

/// The numeric member `field` of element `i` of the array member `key`,
/// converted from a double to a whole `u64` as `as` does.
pub uninterp spec fn json_item_whole_of(doc: Seq<char>, key: Seq<char>, i: nat, field: Seq<char>) -> Option<u64>;

/// Whether `doc` parses as JSON (`serde_json::from_str::<Value>` succeeds).
#[verifier::external_body]
pub(crate) fn json_is_document(doc: &str) -> (b: bool)
    ensures
        b == json_parses(doc@),
{
    serde_json::from_str::<serde_json::Value>(doc).is_ok()
}

/// `doc["key"].as_str()` on the parsed document (`serde_json`); `None` when
/// `doc` does not parse. The result is named, as the JSON grammar is not
/// restated here.
#[verifier::external_body]
pub(crate) fn json_str(doc: &str, key: &str) -> (r: Option<String>)
    ensures
        opt_text(r) == json_text_of(doc@, key@),
{
    match serde_json::from_str::<serde_json::Value>(doc) {
        Ok(v) => v[key].as_str().map(String::from),
        Err(_) => None,
    }
}

/// `doc["key"].as_u64()` on the parsed document (`serde_json`); `None` when
/// `doc` does not parse.
#[verifier::external_body]
pub(crate) fn json_u64(doc: &str, key: &str) -> (r: Option<u64>)
    ensures
        r == json_count_of(doc@, key@),
{
    match serde_json::from_str::<serde_json::Value>(doc) {
        Ok(v) => v[key].as_u64(),
        Err(_) => None,
    }
}

/// `doc["key"].as_bool()` on the parsed document (`serde_json`); `None` when
/// `doc` does not parse.
#[verifier::external_body]
pub(crate) fn json_bool(doc: &str, key: &str) -> (r: Option<bool>)
    ensures
        r == json_flag_of(doc@, key@),
{
    match serde_json::from_str::<serde_json::Value>(doc) {
        Ok(v) => v[key].as_bool(),
        Err(_) => None,
    }
}

/// `doc["key"].as_f64()` on the parsed document (`serde_json`), converted
/// to `u64` with `as`; `None` when `doc` does not parse or the member is
/// not a number.
#[verifier::external_body]
pub(crate) fn json_whole(doc: &str, key: &str) -> (r: Option<u64>)
    ensures
        r == json_whole_of(doc@, key@),
{
    match serde_json::from_str::<serde_json::Value>(doc) {
        Ok(v) => v[key].as_f64().map(|f| f as u64),
        Err(_) => None,
    }
}

/// `doc["key"].as_array().last()["url"].as_str()` on the parsed document
/// (`serde_json`).
#[verifier::external_body]
pub(crate) fn json_last_url(doc: &str, key: &str) -> (r: Option<String>)
    ensures
        opt_text(r) == json_last_url_of(doc@, key@),
{
    match serde_json::from_str::<serde_json::Value>(doc) {
        Ok(v) => match v[key].as_array().and_then(|a| a.last()) {
            Some(t) => t["url"].as_str().map(String::from),
            None => None,
        },
        Err(_) => None,
    }
}

/// The length of `doc["key"].as_array()` (`serde_json`), 0 when it is not
/// an array or `doc` does not parse.
#[verifier::external_body]
pub(crate) fn json_items(doc: &str, key: &str) -> (n: usize)
    ensures
        n as nat == json_items_of(doc@, key@),
{
    match serde_json::from_str::<serde_json::Value>(doc) {
        Ok(v) => match v[key].as_array() {
            Some(a) => a.len(),
            None => 0,
        },
        Err(_) => 0,
    }
}

/// `doc["key"][i]["field"].as_str()` (`serde_json`).
#[verifier::external_body]
pub(crate) fn json_item_str(doc: &str, key: &str, i: usize, field: &str) -> (r: Option<String>)
    ensures
        opt_text(r) == json_item_text_of(doc@, key@, i as nat, field@),
{
    match serde_json::from_str::<serde_json::Value>(doc) {
        Ok(v) => v[key][i][field].as_str().map(String::from),
        Err(_) => None,
    }
}

/// `doc["key"][i]["field"].as_u64()` (`serde_json`).
#[verifier::external_body]
pub(crate) fn json_item_u64(doc: &str, key: &str, i: usize, field: &str) -> (r: Option<u64>)
    ensures
        r == json_item_count_of(doc@, key@, i as nat, field@),
{
    match serde_json::from_str::<serde_json::Value>(doc) {
        Ok(v) => v[key][i][field].as_u64(),
        Err(_) => None,
    }
}

/// `doc["key"][i]["field"].as_f64()` (`serde_json`), converted to `u64`
/// with `as`.
#[verifier::external_body]
pub(crate) fn json_item_whole(doc: &str, key: &str, i: usize, field: &str) -> (r: Option<u64>)
    ensures
        r == json_item_whole_of(doc@, key@, i as nat, field@),
{
    match serde_json::from_str::<serde_json::Value>(doc) {
        Ok(v) => v[key][i][field].as_f64().map(|f| f as u64),
        Err(_) => None,
    }
}

} // verus!
