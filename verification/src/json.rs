//! JSON documents as the joke source sends them.
//!
//! Documents are held as `serde_json::Value`. Contracts speak of a document
//! through [`Json`], the mathematical tree that a value stands for.

use crate::error::{viewed, Field, JokeError};
use vstd::prelude::*;

verus! {

/// A JSON document as a mathematical value.
pub enum Json {
    Null,
    Bool(bool),
    /// A number that is held as an integer.
    Integer(int),
    /// A number that is held in any other way.
    OtherNumber,
    Text(Seq<char>),
    Array(Seq<Json>),
    Object(Map<Seq<char>, Json>),
}

impl Json {
    /// The member stored under `key`, if this is an object that has one.
    pub open spec fn member(self, key: Seq<char>) -> Option<Json> {
        match self {
            Json::Object(members) => if members.contains_key(key) {
                Some(members[key])
            } else {
                None
            },
            _ => None,
        }
    }

    /// The truth value, if this is a boolean.
    pub open spec fn as_bool(self) -> Option<bool> {
        match self {
            Json::Bool(b) => Some(b),
            _ => None,
        }
    }

    /// The number, if this is an integer that a signed 64-bit word can hold.
    pub open spec fn as_i64(self) -> Option<i64> {
        match self {
            Json::Integer(n) => if i64::MIN <= n <= i64::MAX {
                Some(n as i64)
            } else {
                None
            },
            _ => None,
        }
    }

    /// The characters, if this is a string.
    pub open spec fn as_text(self) -> Option<Seq<char>> {
        match self {
            Json::Text(s) => Some(s),
            _ => None,
        }
    }
}

/// `serde_json::Value`, of which nothing is known here but what the items
/// below say of [`json_doc`].
#[verifier::external_type_specification]
#[verifier::external_body]
pub struct ExValue(serde_json::Value);

/// The document that a `serde_json::Value` holds.
pub uninterp spec fn json_doc(value: serde_json::Value) -> Json;

/// `serde_json::Value::get` with a string key: the member of an object under
/// that key, and `None` for a missing key or a value that is no object.
#[verifier::external_body]
fn value_member<'a>(value: &'a serde_json::Value, key: &str) -> (found: Option<
    &'a serde_json::Value,
>)
    ensures
        match found {
            Some(member) => json_doc(*value).member(key@) == Some(json_doc(*member)),
            None => json_doc(*value).member(key@) is None,
        },
{
    value.get(key)
}

/// `serde_json::Value::as_bool`: the truth value of a boolean, `None` for
/// every other kind of value.
pub assume_specification[ serde_json::Value::as_bool ](value: &serde_json::Value) -> (b: Option<
    bool,
>)
    ensures
        b == json_doc(*value).as_bool(),
;

/// `serde_json::Value::as_i64`: the number of an integer that a signed 64-bit
/// word can hold, `None` for a larger integer, for a number that is held in
/// another way, and for every other kind of value.
pub assume_specification[ serde_json::Value::as_i64 ](value: &serde_json::Value) -> (n: Option<
    i64,
>)
    ensures
        n == json_doc(*value).as_i64(),
;

/// `serde_json::Value::as_str`: the characters of a string, `None` for every
/// other kind of value.
pub assume_specification<'a>[ serde_json::Value::as_str ](value: &'a serde_json::Value) -> (text:
    Option<&'a str>)
    ensures
        match text {
            Some(s) => json_doc(*value).as_text() == Some(s@),
            None => json_doc(*value).as_text() is None,
        },
;

/// `serde_json::Error`, of which nothing is known here: it is only told
/// apart from a value that was read.
#[verifier::external_type_specification]
#[verifier::external_body]
pub struct ExError(serde_json::Error);

/// The document that `serde_json::from_str` reads from a text, and `None`
/// for a text that it refuses.
pub uninterp spec fn json_parse(text: Seq<char>) -> Option<Json>;

/// `serde_json::from_str`, reading a `serde_json::Value`: the value holds
/// the document that the text spells, and an error comes back for a text
/// that spells none.
#[verifier::external_body]
fn value_from_str(text: &str) -> (parsed: Result<serde_json::Value, serde_json::Error>)
    ensures
        json_parse(text@) == match parsed {
            Ok(value) => Some(json_doc(value)),
            Err(_) => None,
        },
{
    serde_json::from_str::<serde_json::Value>(text)
}

/// Reads a document from a text.
pub fn parse_json(text: &str) -> (parsed: Result<serde_json::Value, JokeError>)
    ensures
        match parsed {
            Ok(value) => json_parse(text@) == Some(json_doc(value)),
            Err(e) => json_parse(text@) is None && e == JokeError::Malformed,
        },
{
    match value_from_str(text) {
        Ok(value) => Ok(value),
        Err(_) => Err(JokeError::Malformed),
    }
}

/// The member of `doc` that stands under the key of `field`.
pub open spec fn required_member(doc: Json, field: Field) -> Result<Json, JokeError> {
    match doc.member(field.key()) {
        Some(member) => Ok(member),
        None => Err(JokeError::Missing(field)),
    }
}

/// The boolean that stands in `doc` under the key of `field`.
pub open spec fn required_bool(doc: Json, field: Field) -> Result<bool, JokeError> {
    match doc.member(field.key()) {
        Some(member) => match member.as_bool() {
            Some(b) => Ok(b),
            None => Err(JokeError::Invalid(field)),
        },
        None => Err(JokeError::Missing(field)),
    }
}

/// The integer that stands in `doc` under the key of `field`.
pub open spec fn required_i64(doc: Json, field: Field) -> Result<i64, JokeError> {
    match doc.member(field.key()) {
        Some(member) => match member.as_i64() {
            Some(n) => Ok(n),
            None => Err(JokeError::Invalid(field)),
        },
        None => Err(JokeError::Missing(field)),
    }
}

/// The string that stands in `doc` under the key of `field`.
pub open spec fn required_text(doc: Json, field: Field) -> Result<Seq<char>, JokeError> {
    match doc.member(field.key()) {
        Some(member) => match member.as_text() {
            Some(s) => Ok(s),
            None => Err(JokeError::Invalid(field)),
        },
        None => Err(JokeError::Missing(field)),
    }
}

/// Reads the member under the key of `field`.
pub fn read_member<'a>(value: &'a serde_json::Value, field: Field) -> (read: Result<
    &'a serde_json::Value,
    JokeError,
>)
    ensures
        required_member(json_doc(*value), field) == match read {
            Ok(member) => Ok(json_doc(*member)),
            Err(e) => Err(e),
        },
{
    match value_member(value, field.name()) {
        Some(member) => Ok(member),
        None => Err(JokeError::Missing(field)),
    }
}

/// Reads the boolean under the key of `field`.
pub fn read_bool(value: &serde_json::Value, field: Field) -> (read: Result<bool, JokeError>)
    ensures
        read == required_bool(json_doc(*value), field),
{
    match value_member(value, field.name()) {
        Some(member) => match member.as_bool() {
            Some(b) => Ok(b),
            None => Err(JokeError::Invalid(field)),
        },
        None => Err(JokeError::Missing(field)),
    }
}

/// Reads the integer under the key of `field`.
pub fn read_i64(value: &serde_json::Value, field: Field) -> (read: Result<i64, JokeError>)
    ensures
        read == required_i64(json_doc(*value), field),
{
    match value_member(value, field.name()) {
        Some(member) => match member.as_i64() {
            Some(n) => Ok(n),
            None => Err(JokeError::Invalid(field)),
        },
        None => Err(JokeError::Missing(field)),
    }
}

/// Reads the string under the key of `field`.
pub fn read_text<'a>(value: &'a serde_json::Value, field: Field) -> (read: Result<
    &'a str,
    JokeError,
>)
    ensures
        viewed(read) == required_text(json_doc(*value), field),
{
    match value_member(value, field.name()) {
        Some(member) => match member.as_str() {
            Some(s) => Ok(s),
            None => Err(JokeError::Invalid(field)),
        },
        None => Err(JokeError::Missing(field)),
    }
}

} // verus!
