//! What this crate has from `serde_json`: the parser, a decoded value that
//! is read through its own accessors, and the decoder's error.
//!
//! A decoded value is opaque here. What it holds has a name, [`json_of`], and
//! each accessor's contract says what it returns of that content. None of
//! these contracts is proved: each is a reading of `serde_json`.

use vstd::prelude::*;

verus! {

/// `serde_json::Value`: a decoded JSON value.
#[verifier::external_type_specification]
#[verifier::external_body]
pub struct ExJsonValue(serde_json::Value);

/// `serde_json::Error`: the diagnostic of a failed decode, kept as it came.
#[verifier::external_type_specification]
#[verifier::external_body]
pub struct ExJsonError(serde_json::Error);

/// A JSON value as mathematics. Integers are kept whole; of any other number
/// only the fact that it is one.
pub enum Json {
    Null,
    Bool(bool),
    Integer(int),
    Fraction,
    Text(Seq<char>),
    Array(Seq<Json>),
    Object(Map<Seq<char>, Json>),
}

/// What a decoded value holds.
pub uninterp spec fn json_of(value: serde_json::Value) -> Json;

/// What a text decodes to, or the parser's diagnostic where the text is not
/// JSON.
pub uninterp spec fn parsed(body: Seq<char>) -> Result<Json, serde_json::Error>;

/// The decoder's error that carries a message.
pub uninterp spec fn failure_saying(message: Seq<char>) -> serde_json::Error;

/// What several decoded values hold, one by one.
pub open spec fn jsons_of(values: Seq<serde_json::Value>) -> Seq<Json> {
    Seq::new(values.len(), |i: int| json_of(values[i]))
}

impl Json {
    /// The member of an object under a key, or `None` where the value is no
    /// object or has no such key.
    pub open spec fn member(self, key: Seq<char>) -> Option<Json> {
        match self {
            Json::Object(members) => if members.contains_key(key) {
                Some(members[key])
            } else {
                None
            },
            _ => None,
        }
    }

    /// The elements of an array, or `None` where the value is no array.
    pub open spec fn items(self) -> Option<Seq<Json>> {
        match self {
            Json::Array(items) => Some(items),
            _ => None,
        }
    }

    /// The boolean that a value is, or `None` where it is none.
    pub open spec fn boolean(self) -> Option<bool> {
        match self {
            Json::Bool(flag) => Some(flag),
            _ => None,
        }
    }

    /// The integer that a value is, or `None` where it is no integer or does
    /// not fit in 64 bits with a sign.
    pub open spec fn integer(self) -> Option<i64> {
        match self {
            Json::Integer(number) => if i64::MIN <= number <= i64::MAX {
                Some(number as i64)
            } else {
                None
            },
            _ => None,
        }
    }

    /// The text that a value is, or `None` where it is no string.
    pub open spec fn text(self) -> Option<Seq<char>> {
        match self {
            Json::Text(text) => Some(text),
            _ => None,
        }
    }
}

/// `serde_json::from_str` at `serde_json::Value`. The parser reads nothing
/// but the text, so the same text gives the same JSON or the same
/// diagnostic.
#[verifier::external_body]
pub(crate) fn parse(body: &str) -> (r: Result<serde_json::Value, serde_json::Error>)
    ensures
        match r {
            Ok(value) => parsed(body@) == Ok::<Json, serde_json::Error>(json_of(value)),
            Err(diagnostic) => parsed(body@) == Err::<Json, serde_json::Error>(diagnostic),
        },
{
    serde_json::from_str::<serde_json::Value>(body)
}

/// `serde_json::Value::get` with a string index: the member under that key
/// where the value is an object that has it, `None` otherwise.
#[verifier::external_body]
pub(crate) fn member<'a>(value: &'a serde_json::Value, key: &str) -> (r: Option<
    &'a serde_json::Value,
>)
    ensures
        match r {
            Some(found) => json_of(*value).member(key@) == Some(json_of(*found)),
            None => json_of(*value).member(key@).is_none(),
        },
{
    value.get(key)
}

/// `serde_json::Value::as_array`: the elements where the value is an array,
/// `None` otherwise.
#[verifier::external_body]
pub(crate) fn as_array(value: &serde_json::Value) -> (r: Option<&Vec<serde_json::Value>>)
    ensures
        match r {
            Some(items) => json_of(*value).items() == Some(jsons_of(items@)),
            None => json_of(*value).items().is_none(),
        },
{
    value.as_array()
}

/// `serde_json::Value::as_bool`: the boolean where the value is one, `None`
/// otherwise.
#[verifier::external_body]
pub(crate) fn as_bool(value: &serde_json::Value) -> (r: Option<bool>)
    ensures
        r == json_of(*value).boolean(),
{
    value.as_bool()
}

/// `serde_json::Value::as_i64`: the integer where the value is one that fits
/// in 64 bits with a sign, `None` otherwise.
#[verifier::external_body]
pub(crate) fn as_i64(value: &serde_json::Value) -> (r: Option<i64>)
    ensures
        r == json_of(*value).integer(),
{
    value.as_i64()
}

/// `serde_json::Value::as_str`: the text where the value is a string, `None`
/// otherwise.
#[verifier::external_body]
pub(crate) fn as_str(value: &serde_json::Value) -> (r: Option<&str>)
    ensures
        match r {
            Some(text) => json_of(*value).text() == Some(text@),
            None => json_of(*value).text().is_none(),
        },
{
    value.as_str()
}

/// `serde_json::Value::is_null`: whether the value is `null`.
#[verifier::external_body]
pub(crate) fn is_null(value: &serde_json::Value) -> (r: bool)
    ensures
        r == (json_of(*value) is Null),
{
    value.is_null()
}

/// `serde_json::Value::is_object`: whether the value is an object.
#[verifier::external_body]
pub(crate) fn is_object(value: &serde_json::Value) -> (r: bool)
    ensures
        r == (json_of(*value) is Object),
{
    value.is_object()
}

/// `<serde_json::Value as Clone>::clone`. The impl is derived, so the copy is
/// the same JSON value as the one copied; that equality is taken on trust.
pub assume_specification[ <serde_json::Value as Clone>::clone ](
    value: &serde_json::Value,
) -> (copy: serde_json::Value)
    ensures
        copy == *value,
;

/// `<serde_json::Error as serde::de::Error>::custom`: a decoder's error that
/// carries the given message, and that the message alone decides.
#[verifier::external_body]
pub(crate) fn custom_error(message: &str) -> (err: serde_json::Error)
    ensures
        err == failure_saying(message@),
{
    <serde_json::Error as serde::de::Error>::custom(message)
}

} // verus!
