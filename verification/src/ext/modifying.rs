//! Modifying one item: the five single-item actions, and the one record
//! that either shape of the service's answer collapses into.

use crate::client::ClientError;
use crate::client::GetPocket;
use crate::client::GetPocketView;
use crate::client::RecordSendDirect;
use crate::client::SendParams;
use crate::decode::flags_in;
use crate::decode::messages_in;
use crate::decode::resolved;
use crate::decode::status_in;
use crate::decode::RecordSendDirectView;
use crate::json::json_of;
use crate::json::Json;
use crate::wire::as_int;
use crate::wire::empty_payload;
use crate::wire::number_entry;
use crate::wire::push_id;
use crate::wire::push_number;
use crate::wire::push_text;
use crate::wire::text_entry;
use crate::wire::Payload;
use crate::wire::WireValue;
use vstd::prelude::*;
use vstd::std_specs::convert::FromSpecImpl;

verus! {

/// Why a modification could not be put together.
#[derive(Debug, Clone, Copy, PartialEq, Eq)]
pub enum ModifyingError {
    InvalidParams(&'static str),
}

/// The answer to a modification, whichever shape it came in.
#[derive(Debug, Clone, PartialEq, Eq)]
pub struct RecordModified {
    pub is_success: bool,
    pub status: i32,
    pub errors: Vec<Option<String>>,
    pub data: Option<serde_json::Value>,
}

/// A normalized answer as plain text around the payload.
pub struct RecordModifiedView {
    pub is_success: bool,
    pub status: i32,
    pub errors: Seq<Option<Seq<char>>>,
    pub data: Option<Json>,
}

impl View for RecordModified {
    type V = RecordModifiedView;

    open spec fn view(&self) -> RecordModifiedView {
        RecordModifiedView {
            is_success: self.is_success,
            status: self.status,
            errors: self.errors.deep_view(),
            data: match self.data {
                Some(payload) => Some(json_of(payload)),
                None => None,
            },
        }
    }
}

/// What an action does to its item.
#[derive(Debug, Clone, Copy, PartialEq, Eq, Structural)]
pub enum Action {
    Archive,
    Readd,
    Favorite,
    Unfavorite,
    Delete,
}

impl Action {
    /// The action's tag on the wire.
    pub open spec fn wire(self) -> Seq<char> {
        match self {
            Action::Archive => "archive"@,
            Action::Readd => "readd"@,
            Action::Favorite => "favorite"@,
            Action::Unfavorite => "unfavorite"@,
            Action::Delete => "delete"@,
        }
    }

    /// The action's tag on the wire.
    pub fn wire_value(&self) -> (tag: &'static str)
        ensures
            tag@ == self.wire(),
    {
        match self {
            Action::Archive => "archive",
            Action::Readd => "readd",
            Action::Favorite => "favorite",
            Action::Unfavorite => "unfavorite",
            Action::Delete => "delete",
        }
    }
}

/// One action on the wire: its tag, the item, and the time where one is
/// given.
pub open spec fn action_payload(action: Action, item_id: i64, time: Option<i32>) -> Payload {
    Seq::empty() + text_entry("action"@, Some(action.wire())) + number_entry(
        "item_id"@,
        Some(item_id as int),
    ) + number_entry("time"@, as_int(time))
}

/// The payload of one action, ready to be encoded entry by entry.
pub fn action_fields(action: Action, item_id: i64, time: Option<i32>) -> (fields: Vec<
    (&'static str, WireValue<'static>),
>)
    ensures
        fields.deep_view() == action_payload(action, item_id, time),
{
    let mut fields = empty_payload();
    push_text(&mut fields, "action", Some(action.wire_value()));
    push_id(&mut fields, "item_id", item_id);
    push_number(&mut fields, "time", time);
    fields
}

/// Moves an item to the archive.
#[derive(Debug, Clone, Copy, PartialEq, Eq)]
pub struct RequestArchive {
    pub action: Action,
    /// The item that the action is performed on.
    pub item_id: i64,
    /// When the action occurred; left out of the payload when `None`.
    pub time: Option<i32>,
}

/// Moves an item from the archive back to the list.
#[derive(Debug, Clone, Copy, PartialEq, Eq)]
pub struct RequestReadd {
    pub action: Action,
    /// The item that the action is performed on.
    pub item_id: i64,
    /// When the action occurred; left out of the payload when `None`.
    pub time: Option<i32>,
}

/// Marks an item as a favorite.
#[derive(Debug, Clone, Copy, PartialEq, Eq)]
pub struct RequestFavorite {
    pub action: Action,
    /// The item that the action is performed on.
    pub item_id: i64,
    /// When the action occurred; left out of the payload when `None`.
    pub time: Option<i32>,
}

/// Takes the favorite mark off an item.
#[derive(Debug, Clone, Copy, PartialEq, Eq)]
pub struct RequestUnfavorite {
    pub action: Action,
    /// The item that the action is performed on.
    pub item_id: i64,
    /// When the action occurred; left out of the payload when `None`.
    pub time: Option<i32>,
}

/// Removes an item for good.
#[derive(Debug, Clone, Copy, PartialEq, Eq)]
pub struct RequestDelete {
    pub action: Action,
    /// The item that the action is performed on.
    pub item_id: i64,
    /// When the action occurred; left out of the payload when `None`.
    pub time: Option<i32>,
}

impl RequestArchive {
    /// The payload of this action, ready to be encoded entry by entry.
    pub fn fields(&self) -> (fields: Vec<(&'static str, WireValue<'static>)>)
        ensures
            fields.deep_view() == action_payload(self.action, self.item_id, self.time),
    {
        action_fields(self.action, self.item_id, self.time)
    }
}

impl RequestReadd {
    /// The payload of this action, ready to be encoded entry by entry.
    pub fn fields(&self) -> (fields: Vec<(&'static str, WireValue<'static>)>)
        ensures
            fields.deep_view() == action_payload(self.action, self.item_id, self.time),
    {
        action_fields(self.action, self.item_id, self.time)
    }
}

impl RequestFavorite {
    /// The payload of this action, ready to be encoded entry by entry.
    pub fn fields(&self) -> (fields: Vec<(&'static str, WireValue<'static>)>)
        ensures
            fields.deep_view() == action_payload(self.action, self.item_id, self.time),
    {
        action_fields(self.action, self.item_id, self.time)
    }
}

impl RequestUnfavorite {
    /// The payload of this action, ready to be encoded entry by entry.
    pub fn fields(&self) -> (fields: Vec<(&'static str, WireValue<'static>)>)
        ensures
            fields.deep_view() == action_payload(self.action, self.item_id, self.time),
    {
        action_fields(self.action, self.item_id, self.time)
    }
}

impl RequestDelete {
    /// The payload of this action, ready to be encoded entry by entry.
    pub fn fields(&self) -> (fields: Vec<(&'static str, WireValue<'static>)>)
        ensures
            fields.deep_view() == action_payload(self.action, self.item_id, self.time),
    {
        action_fields(self.action, self.item_id, self.time)
    }
}

/// Whether a built modification is the facade's credentials around exactly
/// this one action, or the missing access token reported.
pub open spec fn send_is<'a, T>(
    r: Result<SendParams<'a, [T; 1]>, ClientError>,
    client: GetPocketView,
    action: T,
) -> bool {
    match r {
        Ok(params) => client.token.access_token == Some(params.access_token@)
            && params.consumer_key@ == client.consumer_key && params.actions@[0] == action,
        Err(err) => client.token.access_token.is_none() && err == ClientError::TokenError,
    }
}

impl GetPocket {
    /// One action: move the item to the archive.
    pub fn archive(&self, item_id: i64) -> (r: Result<
        SendParams<'_, [RequestArchive; 1]>,
        ClientError,
    >)
        ensures
            r.is_ok() == self@.token.access_token.is_some(),
            send_is(
                r,
                self@,
                (RequestArchive { action: Action::Archive, item_id, time: None }),
            ),
    {
        let params = RequestArchive { action: Action::Archive, item_id, time: None };
        self.send([params])
    }

    /// One action: move the item from the archive back to the list.
    pub fn readd(&self, item_id: i64) -> (r: Result<SendParams<'_, [RequestReadd; 1]>, ClientError>)
        ensures
            r.is_ok() == self@.token.access_token.is_some(),
            send_is(r, self@, (RequestReadd { action: Action::Readd, item_id, time: None })),
    {
        let params = RequestReadd { action: Action::Readd, item_id, time: None };
        self.send([params])
    }

    /// One action: mark the item as a favorite.
    pub fn favorite(&self, item_id: i64) -> (r: Result<
        SendParams<'_, [RequestFavorite; 1]>,
        ClientError,
    >)
        ensures
            r.is_ok() == self@.token.access_token.is_some(),
            send_is(
                r,
                self@,
                (RequestFavorite { action: Action::Favorite, item_id, time: None }),
            ),
    {
        let params = RequestFavorite { action: Action::Favorite, item_id, time: None };
        self.send([params])
    }

    /// One action: take the favorite mark off the item.
    pub fn unfavorite(&self, item_id: i64) -> (r: Result<
        SendParams<'_, [RequestUnfavorite; 1]>,
        ClientError,
    >)
        ensures
            r.is_ok() == self@.token.access_token.is_some(),
            send_is(
                r,
                self@,
                (RequestUnfavorite { action: Action::Unfavorite, item_id, time: None }),
            ),
    {
        let params = RequestUnfavorite { action: Action::Unfavorite, item_id, time: None };
        self.send([params])
    }

    /// One action: remove the item for good.
    pub fn delete(&self, item_id: i64) -> (r: Result<
        SendParams<'_, [RequestDelete; 1]>,
        ClientError,
    >)
        ensures
            r.is_ok() == self@.token.access_token.is_some(),
            send_is(
                r,
                self@,
                (RequestDelete { action: Action::Delete, item_id, time: None }),
            ),
    {
        let params = RequestDelete { action: Action::Delete, item_id, time: None };
        self.send([params])
    }
}

/// The one record that an answer stands for.
///
/// In the parallel-array shape the first action's flag is the verdict and
/// nothing is reported besides; an answer without any flag is a failure that
/// says so. In the free-form shape the answer succeeded when it lists no
/// error; its errors and its results are handed on as they came.
pub open spec fn normalized(record: RecordSendDirectView) -> RecordModifiedView {
    match record {
        RecordSendDirectView::Standart { action_results, action_errors, status } => {
            if action_results.len() == 0 {
                RecordModifiedView {
                    is_success: false,
                    status,
                    errors: seq![Some("No action results"@)],
                    data: None,
                }
            } else {
                RecordModifiedView {
                    is_success: action_results[0],
                    status,
                    errors: seq![],
                    data: None,
                }
            }
        },
        RecordSendDirectView::Extended {
            action_results,
            action_errors,
            status,
        } => RecordModifiedView {
            is_success: action_errors.len() == 0,
            status,
            errors: action_errors,
            data: Some(action_results),
        },
    }
}

/// What the record of a body says, by the body's structure. The status is
/// the body's. Where the results are an array of booleans, the verdict is the
/// first of them, no error is listed and no payload kept, and an empty array
/// is a failure that says so. Where they are anything else, they are kept as
/// the payload, the errors are the body's, and the verdict is that none is
/// listed.
pub proof fn lemma_record_of_body(body: Json)
    requires
        resolved(body).is_some(),
    ensures
        ({
            let record = normalized(resolved(body).unwrap());
            let results = body.member("action_results"@).unwrap();
            let errors = body.member("action_errors"@).unwrap();
            &&& Some(record.status) == status_in(body.member("status"@).unwrap())
            &&& match flags_in(results) {
                Some(flags) => {
                    &&& record.data.is_none()
                    &&& flags.len() > 0 ==> record.is_success == flags[0] && record.errors.len()
                        == 0
                    &&& flags.len() == 0 ==> !record.is_success && record.errors
                        == seq![Some("No action results"@)]
                },
                None => {
                    &&& record.data == Some(results)
                    &&& Some(record.errors) == messages_in(errors)
                    &&& record.is_success <==> record.errors.len() == 0
                },
            }
        }),
{
}

/// A copy of a list of optional messages, text for text.
fn copy_errors(errors: &Vec<Option<String>>) -> (copy: Vec<Option<String>>)
    ensures
        copy.deep_view() == errors.deep_view(),
{
    let mut copy: Vec<Option<String>> = Vec::new();
    let mut i: usize = 0;
    while i < errors.len()
        invariant
            i <= errors.len(),
            copy.len() == i,
            forall|j: int| 0 <= j < i ==> copy[j].deep_view() == errors[j].deep_view(),
        decreases errors.len() - i,
    {
        let entry: Option<String> = match &errors[i] {
            Some(message) => Some(message.clone()),
            None => None,
        };
        copy.push(entry);
        i = i + 1;
    }
    assert(copy.deep_view() =~= errors.deep_view());
    copy
}

impl RecordModified {
    /// Collapses an answer of either shape into one record.
    pub fn normalize(record: &RecordSendDirect) -> (modified: RecordModified)
        ensures
            modified@ == normalized(record@),
    {
        match record {
            RecordSendDirect::Standart(answer) => {
                if answer.action_results.len() == 0 {
                    let mut errors: Vec<Option<String>> = Vec::new();
                    errors.push(Some("No action results".to_owned()));
                    assert(errors.deep_view() =~= seq![Some("No action results"@)]);
                    RecordModified { is_success: false, status: answer.status, errors, data: None }
                } else {
                    let errors: Vec<Option<String>> = Vec::new();
                    assert(errors.deep_view() =~= Seq::<Option<Seq<char>>>::empty());
                    RecordModified {
                        is_success: answer.action_results[0],
                        status: answer.status,
                        errors,
                        data: None,
                    }
                }
            },
            RecordSendDirect::Extended(answer) => RecordModified {
                is_success: answer.action_errors.len() == 0,
                status: answer.status,
                errors: copy_errors(&answer.action_errors),
                data: Some(answer.action_results.clone()),
            },
        }
    }
}

impl<'a> From<&'a RecordSendDirect> for RecordModified {
    fn from(record: &'a RecordSendDirect) -> (modified: RecordModified)
        ensures
            modified@ == normalized(record@),
    {
        RecordModified::normalize(record)
    }
}

impl<'a> FromSpecImpl<&'a RecordSendDirect> for RecordModified {
    /// Two records with the same text need not be the same value, so the
    /// conversion is stated over views, on `from` itself.
    open spec fn obeys_from_spec() -> bool {
        false
    }

    open spec fn from_spec(record: &'a RecordSendDirect) -> RecordModified {
        arbitrary()
    }
}

} // verus!
