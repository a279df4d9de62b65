//! Parsers and hashes of other crates, as far as the command-line logic
//! uses them.
//!
//! Nothing in this file is proved: each function hands one call to
//! another crate, and its contract gives the call's result a name.

use vstd::prelude::*;

verus! {

#[verifier::external_type_specification]
#[verifier::external_body]
pub struct ExTomlValue(toml::Value);

#[verifier::external_type_specification]
#[verifier::external_body]
pub struct ExTomlError(toml::de::Error);

#[verifier::external_type_specification]
#[verifier::external_body]
pub struct ExJsonValue(serde_json::Value);

#[verifier::external_type_specification]
#[verifier::external_body]
pub struct ExJsonError(serde_json::Error);

/// The value of the TOML document `text`, where it is one.
pub uninterp spec fn toml_document(text: Seq<char>) -> Option<toml::Value>;

/// The entry called `key` of a TOML table; nothing for any other value
/// and for a key that the table lacks.
pub uninterp spec fn toml_entry(value: toml::Value, key: Seq<char>) -> Option<toml::Value>;

/// The boolean that a TOML value holds, where it is one.
pub uninterp spec fn toml_bool(value: toml::Value) -> Option<bool>;

/// The string that a TOML value holds, where it is one.
pub uninterp spec fn toml_text(value: toml::Value) -> Option<Seq<char>>;

/// The elements of a TOML array, each as the string that it holds, where
/// it holds one; nothing for a value that is no array.
pub uninterp spec fn toml_texts(value: toml::Value) -> Option<Seq<Option<Seq<char>>>>;

/// The value of the JSON text `text`, where it is one.
pub uninterp spec fn json_document(text: Seq<char>) -> Option<serde_json::Value>;

/// The member called `key` of a JSON object; nothing for any other value
/// and for a key that the object lacks.
pub uninterp spec fn json_member(value: serde_json::Value, key: Seq<char>) -> Option<
    serde_json::Value,
>;

/// The string that a JSON value holds, where it is one.
pub uninterp spec fn json_text(value: serde_json::Value) -> Option<Seq<char>>;

/// The number of elements of a JSON array; nothing for any other value.
pub uninterp spec fn json_length(value: serde_json::Value) -> Option<nat>;

/// A JSON value as compact text.
pub uninterp spec fn json_compact(value: serde_json::Value) -> Seq<char>;

/// A JSON value as indented text.
pub uninterp spec fn json_pretty(value: serde_json::Value) -> Seq<char>;

/// The BLAKE3 hash of `bytes`.
pub uninterp spec fn blake3_of(bytes: Seq<u8>) -> Seq<u8>;

/// `toml::from_str`: reads `text` as a TOML document.
#[verifier::external_body]
pub(crate) fn toml_parse(text: &str) -> (r: Result<toml::Value, toml::de::Error>)
    ensures
        match r {
            Ok(value) => toml_document(text@) == Some(value),
            Err(_) => toml_document(text@) is None,
        },
{
    toml::from_str::<toml::Value>(text)
}

/// The `Display` of `toml::de::Error`: the text of a parse error. Nothing
/// is claimed of the text.
#[verifier::external_body]
pub(crate) fn toml_error_text(error: &toml::de::Error) -> String {
    format!("{error}")
}

/// `toml::Value::get` with a string key.
#[verifier::external_body]
pub(crate) fn toml_get<'a>(value: &'a toml::Value, key: &str) -> (r: Option<&'a toml::Value>)
    ensures
        match r {
            Some(entry) => toml_entry(*value, key@) == Some(*entry),
            None => toml_entry(*value, key@) is None,
        },
{
    value.get(key)
}

/// `toml::Value::as_bool`.
#[verifier::external_body]
pub(crate) fn toml_as_bool(value: &toml::Value) -> (r: Option<bool>)
    ensures
        r == toml_bool(*value),
{
    value.as_bool()
}

/// `toml::Value::as_str`, with the string copied.
#[verifier::external_body]
pub(crate) fn toml_as_str(value: &toml::Value) -> (r: Option<String>)
    ensures
        match r {
            Some(text) => toml_text(*value) == Some(text@),
            None => toml_text(*value) is None,
        },
{
    value.as_str().map(String::from)
}

/// `toml::Value::as_array`, with each element handed out as the string
/// that it holds.
#[verifier::external_body]
pub(crate) fn toml_as_strings(value: &toml::Value) -> (r: Option<Vec<Option<String>>>)
    ensures
        match r {
            Some(items) => toml_texts(*value) is Some && toml_texts(*value)->0.len()
                == items@.len() && forall|i: int|
                0 <= i < items@.len() ==> #[trigger] toml_texts(*value)->0[i] == (
                match items@[i] {
                    Some(text) => Some(text@),
                    None => None,
                }),
            None => toml_texts(*value) is None,
        },
{
    value.as_array().map(|items| items.iter().map(|item| item.as_str().map(String::from)).collect())
}

/// `serde_json::from_str`: reads `text` as a JSON value.
#[verifier::external_body]
pub(crate) fn json_parse(text: &str) -> (r: Result<serde_json::Value, serde_json::Error>)
    ensures
        match r {
            Ok(value) => json_document(text@) == Some(value),
            Err(_) => json_document(text@) is None,
        },
{
    serde_json::from_str::<serde_json::Value>(text)
}

/// The `Display` of `serde_json::Error`: the text of a parse error.
/// Nothing is claimed of the text.
#[verifier::external_body]
pub(crate) fn json_error_text(error: &serde_json::Error) -> String {
    format!("{error}")
}

/// `serde_json::Value::get` with a string key.
#[verifier::external_body]
pub(crate) fn json_get<'a>(value: &'a serde_json::Value, key: &str) -> (r: Option<
    &'a serde_json::Value,
>)
    ensures
        match r {
            Some(member) => json_member(*value, key@) == Some(*member),
            None => json_member(*value, key@) is None,
        },
{
    value.get(key)
}

/// `serde_json::Value::as_str`, with the string copied.
#[verifier::external_body]
pub(crate) fn json_as_str(value: &serde_json::Value) -> (r: Option<String>)
    ensures
        match r {
            Some(text) => json_text(*value) == Some(text@),
            None => json_text(*value) is None,
        },
{
    value.as_str().map(String::from)
}

/// `serde_json::Value::as_array`, with the array's length handed out.
#[verifier::external_body]
pub(crate) fn json_array_len(value: &serde_json::Value) -> (r: Option<usize>)
    ensures
        match r {
            Some(len) => json_length(*value) == Some(len as nat),
            None => json_length(*value) is None,
        },
{
    value.as_array().map(Vec::len)
}

/// `serde_json::to_string` of a value. The call cannot fail for a value,
/// whose keys are all strings; should it fail all the same, the text is
/// empty.
#[verifier::external_body]
pub(crate) fn json_to_string(value: &serde_json::Value) -> (r: String)
    ensures
        r@ == json_compact(*value),
{
    serde_json::to_string(value).unwrap_or_default()
}

/// `serde_json::to_string_pretty` of a value.
#[verifier::external_body]
pub(crate) fn json_to_string_pretty(value: &serde_json::Value) -> (r: String)
    ensures
        r@ == json_pretty(*value),
{
    serde_json::to_string_pretty(value).unwrap_or_default()
}

/// `blake3::hash`: the 32 bytes of the hash of `bytes`.
#[verifier::external_body]
pub(crate) fn blake3_digest(bytes: &Vec<u8>) -> (r: Vec<u8>)
    ensures
        r@ == blake3_of(bytes@),
        r@.len() == 32,
{
    blake3::hash(bytes).as_bytes().to_vec()
}

} // verus!
