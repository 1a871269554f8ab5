//! The calls into serde_json and std that turn text into values and back.
use crate::text::{comma_joined, keys_ascending, pairs_model, texts_model, unpadded};
use vstd::prelude::*;
use vstd::utf8::{decode_utf8, valid_utf8};

verus! {

#[verifier::external_type_specification]
#[verifier::external_body]
pub struct ExJsonError(serde_json::Error);

/// The members of a JSON object text, each key with the text of its value,
/// as serde_json reads them into an ordered map; `None` where the text is no object.
pub uninterp spec fn json_object_members(text: Seq<char>) -> Option<Seq<(Seq<char>, Seq<char>)>>;

/// The string that a JSON text denotes, where it denotes one.
pub uninterp spec fn json_string_of(text: Seq<char>) -> Option<Seq<char>>;

/// The list of strings that a JSON text denotes, where it denotes one.
pub uninterp spec fn json_string_list_of(text: Seq<char>) -> Option<Seq<Seq<char>>>;

/// A lower-case hexadecimal digit.
pub open spec fn hex_digit(d: u32) -> char {
    if d < 10 {
        (d + 48) as char
    } else {
        (d + 87) as char
    }
}

/// How a character stands inside a JSON string literal: quote and backslash
/// behind a backslash, the five usual control characters by their short
/// escapes, the other control characters below U+0020 as `\u00XX`, and any
/// other character as itself.
pub open spec fn escaped_char(c: char) -> Seq<char> {
    if c == '"' {
        seq!['\\', '"']
    } else if c == '\\' {
        seq!['\\', '\\']
    } else if c == '\u{8}' {
        seq!['\\', 'b']
    } else if c == '\t' {
        seq!['\\', 't']
    } else if c == '\n' {
        seq!['\\', 'n']
    } else if c == '\u{c}' {
        seq!['\\', 'f']
    } else if c == '\r' {
        seq!['\\', 'r']
    } else if (c as u32) < 0x20 {
        seq!['\\', 'u', '0', '0', hex_digit((c as u32) / 16), hex_digit((c as u32) % 16)]
    } else {
        seq![c]
    }
}

/// The characters of a string, each escaped.
pub open spec fn escaped(s: Seq<char>) -> Seq<char>
    decreases s.len(),
{
    if s.len() == 0 {
        Seq::empty()
    } else {
        escaped(s.drop_last()) + escaped_char(s.last())
    }
}

/// The JSON text that serde_json writes for a string: the escaped characters
/// between double quotes.
pub open spec fn json_string_literal(s: Seq<char>) -> Seq<char> {
    seq!['"'] + escaped(s) + seq!['"']
}

/// The JSON text that serde_json writes for a list of strings: their literals,
/// separated by commas, between brackets.
pub open spec fn json_string_list_literal(items: Seq<Seq<char>>) -> Seq<char> {
    seq!['['] + comma_joined(items.map_values(|s: Seq<char>| json_string_literal(s))) + seq![']']
}

/// The JSON object text that serde_json writes for an ordered map from keys to
/// raw JSON value texts: each key's literal, a colon and the raw text,
/// separated by commas, between braces.
pub open spec fn json_object_text(members: Seq<(Seq<char>, Seq<char>)>) -> Seq<char> {
    seq!['{'] + comma_joined(
        members.map_values(|m: (Seq<char>, Seq<char>)| json_string_literal(m.0) + seq![':'] + m.1),
    ) + seq!['}']
}

/// Relies on std::str::from_utf8: the bytes are accepted exactly when they are
/// well-formed UTF-8, and then read as the characters they encode.
#[verifier::external_body]
pub(crate) fn utf8_text(bytes: &[u8]) -> (r: Option<String>)
    ensures
        r is Some <==> valid_utf8(bytes@),
        r matches Some(t) ==> t@ == decode_utf8(bytes@),
{
    std::str::from_utf8(bytes).ok().map(|s| s.to_string())
}

/// Relies on serde_json::from_str reading a JSON object into a
/// `BTreeMap<String, Box<RawValue>>`: each member's key and the raw text of its value.
#[verifier::external_body]
pub(crate) fn object_members(text: &str) -> (r: Result<Vec<(String, String)>, serde_json::Error>)
    ensures
        r is Ok <==> json_object_members(text@) is Some,
        r matches Ok(ms) ==> json_object_members(text@) == Some(pairs_model(ms@)),
{
    let map: std::collections::BTreeMap<String, Box<serde_json::value::RawValue>> =
        serde_json::from_str(text)?;
    Ok(map.into_iter().map(|(k, v)| (k, v.get().to_string())).collect())
}

/// Relies on serde_json::from_str reading a JSON text as a `String`.
#[verifier::external_body]
pub(crate) fn string_value(text: &str) -> (r: Result<String, serde_json::Error>)
    ensures
        r is Ok <==> json_string_of(text@) is Some,
        r matches Ok(s) ==> json_string_of(text@) == Some(s@),
{
    serde_json::from_str::<String>(text)
}

/// Relies on serde_json::from_str reading a JSON text as a `Vec<String>`.
#[verifier::external_body]
pub(crate) fn string_list_value(text: &str) -> (r: Result<Vec<String>, serde_json::Error>)
    ensures
        r is Ok <==> json_string_list_of(text@) is Some,
        r matches Ok(v) ==> json_string_list_of(text@) == Some(texts_model(v@)),
{
    serde_json::from_str::<Vec<String>>(text)
}

/// Relies on serde_json::to_string on a `str`: a quoted, escaped literal, which
/// serde_json reads back as the same string. Writing into its in-memory buffer
/// cannot fail.
#[verifier::external_body]
pub(crate) fn string_literal(s: &str) -> (r: Result<String, serde_json::Error>)
    ensures
        r is Ok,
        r matches Ok(t) ==> t@ == json_string_literal(s@),
        r matches Ok(t) ==> json_string_of(t@) == Some(s@),
{
    serde_json::to_string(s)
}

/// Relies on serde_json::to_string on a `Vec<String>`: an array of string
/// literals, which serde_json reads back as the same list. Writing into its
/// in-memory buffer cannot fail.
#[verifier::external_body]
pub(crate) fn string_list_literal(items: &Vec<String>) -> (r: Result<String, serde_json::Error>)
    ensures
        r is Ok,
        r matches Ok(t) ==> t@ == json_string_list_literal(texts_model(items@)),
        r matches Ok(t) ==> json_string_list_of(t@) == Some(texts_model(items@)),
{
    serde_json::to_string(items)
}

/// Relies on serde_json::to_string on a `BTreeMap<String, Box<RawValue>>`, each
/// value made by `RawValue::from_string`, which checks it and keeps its text. The
/// map writes its members in key order, each raw text as it is, so serde_json
/// reads the object back as the same members. Only a value that is no JSON
/// text is an error: a text that serde_json reads as a string or a list of
/// strings is JSON.
#[verifier::external_body]
pub(crate) fn object_text(members: &Vec<(String, String)>) -> (r: Result<String, serde_json::Error>)
    requires
        keys_ascending(pairs_model(members@)),
        forall|i: int| 0 <= i < members@.len() ==> unpadded(#[trigger] members@[i].1@),
    ensures
        (forall|i: int|
            0 <= i < members@.len() ==> (json_string_of(#[trigger] members@[i].1@) is Some
                || json_string_list_of(members@[i].1@) is Some)) ==> r is Ok,
        r matches Ok(t) ==> t@ == json_object_text(pairs_model(members@)),
        r matches Ok(t) ==> json_object_members(t@) == Some(pairs_model(members@)),
{
    let mut map = std::collections::BTreeMap::new();
    for (k, v) in members {
        map.insert(k.clone(), serde_json::value::RawValue::from_string(v.clone())?);
    }
    serde_json::to_string(&map)
}

} // verus!
