//! Decoding the bodies of successful responses.
//!
//! Each record is read off a decoded body member by member. A member that a
//! record needs and the body lacks, or has in another type, makes the body a
//! decode failure; members that no record asks for are passed over.
//!
//! The answer to a modify-family call comes in two shapes, and the service
//! sends no tag that tells them apart, so the shape is read off the
//! structure: an answer whose results are an array of booleans is the
//! parallel-array shape, and any other answer that has results at all is the
//! free-form shape. Both need a list of optional messages and a status that
//! fits in 32 bits.

use crate::client::ClientError;
use crate::client::ExtendedResponse;
use crate::client::RecordSendDirect;
use crate::client::StandardResponse;
use crate::json::as_array;
use crate::json::as_bool;
use crate::json::as_i64;
use crate::json::as_str;
use crate::json::custom_error;
use crate::json::failure_saying;
use crate::json::is_null;
use crate::json::is_object;
use crate::json::json_of;
use crate::json::jsons_of;
use crate::json::Json;
use crate::json::member;
use crate::json::parse;
use crate::json::parsed;
use vstd::prelude::*;

verus! {

/// What the diagnostic says of a body that is JSON but not the record asked
/// for.
pub const MISFIT: &'static str = "data did not match the shape of the answer";

/// The failure of a body that is JSON but not the record asked for: a decode
/// failure whose diagnostic says [`MISFIT`].
pub open spec fn misfit_error() -> ClientError {
    ClientError::JsonError(failure_saying(MISFIT@))
}

/// The failure of a text that is not JSON: a decode failure with the parser's
/// own diagnostic.
pub open spec fn parse_error(diagnostic: serde_json::Error) -> ClientError {
    ClientError::JsonError(diagnostic)
}

/// A modify answer as plain text around the free-form results.
pub enum RecordSendDirectView {
    Standart { action_results: Seq<bool>, action_errors: Seq<Option<Seq<char>>>, status: i32 },
    Extended { action_results: Json, action_errors: Seq<Option<Seq<char>>>, status: i32 },
}

impl View for RecordSendDirect {
    type V = RecordSendDirectView;

    open spec fn view(&self) -> RecordSendDirectView {
        match self {
            RecordSendDirect::Standart(answer) => RecordSendDirectView::Standart {
                action_results: answer.action_results@,
                action_errors: answer.action_errors.deep_view(),
                status: answer.status,
            },
            RecordSendDirect::Extended(answer) => RecordSendDirectView::Extended {
                action_results: json_of(answer.action_results),
                action_errors: answer.action_errors.deep_view(),
                status: answer.status,
            },
        }
    }
}

/// The flags that a value lists: it is an array and each element a boolean.
pub open spec fn flags_in(value: Json) -> Option<Seq<bool>> {
    match value.items() {
        Some(items) => if forall|i: int|
            0 <= i < items.len() ==> (#[trigger] items[i].boolean()).is_some() {
            Some(Seq::new(items.len(), |i: int| items[i].boolean().unwrap()))
        } else {
            None
        },
        None => None,
    }
}

/// The optional message that a value is: none for `null`, the text for a
/// string. Anything else is no optional message.
pub open spec fn message_in(value: Json) -> Option<Option<Seq<char>>> {
    if value is Null {
        Some(None)
    } else {
        match value.text() {
            Some(text) => Some(Some(text)),
            None => None,
        }
    }
}

/// The optional messages that a value lists: it is an array and each element
/// an optional message.
pub open spec fn messages_in(value: Json) -> Option<Seq<Option<Seq<char>>>> {
    match value.items() {
        Some(items) => if forall|i: int|
            0 <= i < items.len() ==> (#[trigger] message_in(items[i])).is_some() {
            Some(Seq::new(items.len(), |i: int| message_in(items[i]).unwrap()))
        } else {
            None
        },
        None => None,
    }
}

/// The status that a value is: an integer that fits in 32 bits with a sign.
pub open spec fn status_in(value: Json) -> Option<i32> {
    match value.integer() {
        Some(number) => if i32::MIN <= number <= i32::MAX {
            Some(number as i32)
        } else {
            None
        },
        None => None,
    }
}

/// The status that may be under a key: none where the key is absent or holds
/// `null`. A member of any other type than an integer that fits is a misfit.
pub open spec fn optional_status_in(member: Option<Json>) -> Option<Option<i32>> {
    match member {
        None => Some(None),
        Some(value) => if value is Null {
            Some(None)
        } else {
            match status_in(value) {
                Some(status) => Some(Some(status)),
                None => None,
            }
        },
    }
}

/// The message that may be under a key: none where the key is absent or
/// holds `null`. A member of any other type than a string is a misfit.
pub open spec fn optional_message_in(member: Option<Json>) -> Option<
    Option<Seq<char>>,
> {
    match member {
        None => Some(None),
        Some(value) => message_in(value),
    }
}

/// The status under a key that must be there.
pub open spec fn required_status_in(member: Option<Json>) -> Option<i32> {
    match member {
        Some(value) => status_in(value),
        None => None,
    }
}

/// The text under a key that must be there.
pub open spec fn required_text_in(member: Option<Json>) -> Option<Seq<char>> {
    match member {
        Some(value) => value.text(),
        None => None,
    }
}

/// The object under a key that must be there.
pub open spec fn required_object_in(member: Option<Json>) -> Option<Json> {
    match member {
        Some(value) => if value is Object {
            Some(value)
        } else {
            None
        },
        None => None,
    }
}

/// The answer that a decoded body stands for, or `None` where it has neither
/// shape. The parallel-array shape is taken wherever it fits; the free-form
/// shape takes the rest.
pub open spec fn resolved(body: Json) -> Option<RecordSendDirectView> {
    match (
        body.member("action_results"@),
        body.member("action_errors"@),
        body.member("status"@),
    ) {
        (Some(results), Some(errors), Some(status)) => match (
            messages_in(errors),
            status_in(status),
        ) {
            (Some(action_errors), Some(status)) => match flags_in(results) {
                Some(action_results) => Some(
                    RecordSendDirectView::Standart { action_results, action_errors, status },
                ),
                None => Some(
                    RecordSendDirectView::Extended {
                        action_results: results,
                        action_errors,
                        status,
                    },
                ),
            },
            _ => None,
        },
        _ => None,
    }
}

/// The shape follows the structure and nothing else. A body has a shape
/// exactly when it has results, a list of optional messages and a status that
/// fits. It is then the parallel-array shape exactly when the results are an
/// array of booleans, with those flags, and the free-form shape otherwise,
/// with the results as they came. Messages and status are the body's own
/// either way.
pub proof fn lemma_shape_by_structure(body: Json)
    ensures
        resolved(body).is_some() <==> (body.member("action_results"@).is_some() && (body.member("action_errors"@) matches Some(errors) && messages_in(errors).is_some()) && (body.member("status"@)
            matches Some(status) && status_in(status).is_some())),
        resolved(body) matches Some(
            RecordSendDirectView::Standart { action_results, action_errors, status },
        ) ==> flags_in(body.member("action_results"@).unwrap()) == Some(action_results)
            && messages_in(body.member("action_errors"@).unwrap()) == Some(action_errors)
            && status_in(body.member("status"@).unwrap()) == Some(status),
        resolved(body) matches Some(
            RecordSendDirectView::Extended { action_results, action_errors, status },
        ) ==> flags_in(action_results).is_none() && body.member("action_results"@) == Some(
            action_results,
        ) && messages_in(body.member("action_errors"@).unwrap()) == Some(action_errors)
            && status_in(body.member("status"@).unwrap()) == Some(status),
{
}

/// Whether a decoded answer is the one that the model asks for: the same
/// answer, or the misfit reported where the model has none.
pub open spec fn decoding_is(
    r: Result<RecordSendDirect, ClientError>,
    expected: Option<RecordSendDirectView>,
) -> bool {
    match r {
        Ok(record) => expected == Some(record@),
        Err(err) => expected.is_none() && err == misfit_error(),
    }
}

/// Reads the flags that a value lists.
fn read_flags(value: &serde_json::Value) -> (r: Option<Vec<bool>>)
    ensures
        match flags_in(json_of(*value)) {
            Some(flags) => r matches Some(read) && read@ == flags,
            None => r.is_none(),
        },
{
    match as_array(value) {
        None => None,
        Some(items) => {
            let mut flags: Vec<bool> = Vec::new();
            let mut i: usize = 0;
            while i < items.len()
                invariant
                    i <= items.len(),
                    flags.len() == i,
                    json_of(*value).items() == Some(jsons_of(items@)),
                    forall|j: int|
                        0 <= j < i ==> (#[trigger] jsons_of(items@)[j]).boolean() == Some(
                            flags@[j],
                        ),
                decreases items.len() - i,
            {
                match as_bool(&items[i]) {
                    Some(flag) => flags.push(flag),
                    None => {
                        assert(jsons_of(items@)[i as int].boolean().is_none());
                        return None;
                    },
                }
                i = i + 1;
            }
            assert(flags@ =~= flags_in(json_of(*value)).unwrap());
            Some(flags)
        },
    }
}

/// Reads the optional messages that a value lists.
fn read_messages(value: &serde_json::Value) -> (r: Option<Vec<Option<String>>>)
    ensures
        match messages_in(json_of(*value)) {
            Some(messages) => r matches Some(read) && read.deep_view() == messages,
            None => r.is_none(),
        },
{
    match as_array(value) {
        None => None,
        Some(items) => {
            let mut messages: Vec<Option<String>> = Vec::new();
            let mut i: usize = 0;
            while i < items.len()
                invariant
                    i <= items.len(),
                    messages.len() == i,
                    json_of(*value).items() == Some(jsons_of(items@)),
                    forall|j: int|
                        0 <= j < i ==> message_in(#[trigger] jsons_of(items@)[j]) == Some(
                            messages@[j].deep_view(),
                        ),
                decreases items.len() - i,
            {
                if is_null(&items[i]) {
                    messages.push(None);
                } else {
                    match as_str(&items[i]) {
                        Some(text) => messages.push(Some(text.to_owned())),
                        None => {
                            assert(message_in(jsons_of(items@)[i as int]).is_none());
                            return None;
                        },
                    }
                }
                i = i + 1;
            }
            assert(messages.deep_view() =~= messages_in(json_of(*value)).unwrap());
            Some(messages)
        },
    }
}

/// Reads the status that a value is.
pub(crate) fn read_status(value: &serde_json::Value) -> (r: Option<i32>)
    ensures
        r == status_in(json_of(*value)),
{
    match as_i64(value) {
        Some(number) => if number >= -2147483648 && number <= 2147483647 {
            Some(number as i32)
        } else {
            None
        },
        None => None,
    }
}

/// Reads the status that may be under a key.
pub(crate) fn read_optional_status(body: &serde_json::Value, key: &str) -> (r: Option<Option<i32>>)
    ensures
        r == optional_status_in(json_of(*body).member(key@)),
{
    match member(body, key) {
        None => Some(None),
        Some(value) => if is_null(value) {
            Some(None)
        } else {
            match read_status(value) {
                Some(status) => Some(Some(status)),
                None => None,
            }
        },
    }
}

/// Reads the message that may be under a key.
pub(crate) fn read_optional_message(body: &serde_json::Value, key: &str) -> (r: Option<
    Option<String>,
>)
    ensures
        r.deep_view() == optional_message_in(json_of(*body).member(key@)),
{
    match member(body, key) {
        None => Some(None),
        Some(value) => if is_null(value) {
            Some(None)
        } else {
            match as_str(value) {
                Some(text) => Some(Some(text.to_owned())),
                None => None,
            }
        },
    }
}

/// Reads the status under a key that must be there.
pub(crate) fn read_required_status(body: &serde_json::Value, key: &str) -> (r: Option<i32>)
    ensures
        r == required_status_in(json_of(*body).member(key@)),
{
    match member(body, key) {
        Some(value) => read_status(value),
        None => None,
    }
}

/// Reads the text under a key that must be there.
pub(crate) fn read_required_text(body: &serde_json::Value, key: &str) -> (r: Option<String>)
    ensures
        r.deep_view() == required_text_in(json_of(*body).member(key@)),
{
    match member(body, key) {
        Some(value) => match as_str(value) {
            Some(text) => Some(text.to_owned()),
            None => None,
        },
        None => None,
    }
}

/// Reads the object under a key that must be there.
pub(crate) fn read_required_object(body: &serde_json::Value, key: &str) -> (r: Option<
    serde_json::Value,
>)
    ensures
        match r {
            Some(object) => required_object_in(json_of(*body).member(key@)) == Some(
                json_of(object),
            ),
            None => required_object_in(json_of(*body).member(key@)).is_none(),
        },
{
    match member(body, key) {
        Some(value) => if is_object(value) {
            Some(value.clone())
        } else {
            None
        },
        None => None,
    }
}

/// The failure of a body that does not fit the record asked for.
pub(crate) fn misfit() -> (err: ClientError)
    ensures
        err == misfit_error(),
{
    ClientError::JsonError(custom_error(MISFIT))
}

/// Decodes a text, keeping the parser's own diagnostic where it fails.
pub(crate) fn parse_body(body: &str) -> (r: Result<serde_json::Value, ClientError>)
    ensures
        match r {
            Ok(value) => parsed(body@) == Ok::<Json, serde_json::Error>(json_of(value)),
            Err(err) => parsed(body@) matches Err(diagnostic) && err == parse_error(diagnostic),
        },
{
    match parse(body) {
        Ok(value) => Ok(value),
        Err(err) => Err(ClientError::JsonError(err)),
    }
}

impl RecordSendDirect {
    /// Reads the answer off a decoded body, by its structure alone. A body
    /// of neither shape is a decode failure.
    pub fn resolve(body: &serde_json::Value) -> (r: Result<RecordSendDirect, ClientError>)
        ensures
            decoding_is(r, resolved(json_of(*body))),
    {
        let results = member(body, "action_results");
        let errors = member(body, "action_errors");
        let status = member(body, "status");
        match (results, errors, status) {
            (Some(results), Some(errors), Some(status)) => {
                match (read_messages(errors), read_status(status)) {
                    (Some(action_errors), Some(status)) => match read_flags(results) {
                        Some(action_results) => Ok(
                            RecordSendDirect::Standart(
                                StandardResponse { action_results, action_errors, status },
                            ),
                        ),
                        None => Ok(
                            RecordSendDirect::Extended(
                                ExtendedResponse {
                                    action_results: results.clone(),
                                    action_errors,
                                    status,
                                },
                            ),
                        ),
                    },
                    _ => Err(misfit()),
                }
            },
            _ => Err(misfit()),
        }
    }

    /// Decodes the body of a successful response. Text that is not JSON fails
    /// with the parser's own diagnostic; JSON is resolved by its structure.
    pub fn decode(body: &str) -> (r: Result<RecordSendDirect, ClientError>)
        ensures
            match parsed(body@) {
                Ok(json) => decoding_is(r, resolved(json)),
                Err(diagnostic) => r == Err::<RecordSendDirect, ClientError>(
                    parse_error(diagnostic),
                ),
            },
    {
        match parse_body(body) {
            Ok(value) => Self::resolve(&value),
            Err(err) => Err(err),
        }
    }
}

} // verus!
