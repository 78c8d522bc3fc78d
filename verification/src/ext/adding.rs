//! Adding an item: the parameters of an "add" call.

use crate::client::GetPocket;
use crate::client::GetPocketView;
use crate::client::ClientError;
use crate::decode::misfit;
use crate::decode::misfit_error;
use crate::decode::parse_error;
use crate::decode::parse_body;
use crate::decode::read_required_object;
use crate::decode::read_required_status;
use crate::decode::required_object_in;
use crate::decode::required_status_in;
use crate::json::json_of;
use crate::json::Json;
use crate::json::parsed;
use crate::wire::empty_payload;
use crate::wire::lemma_lookup_empty;
use crate::wire::lemma_lookup_entry;
use crate::wire::list_value;
use crate::wire::lookup;
use crate::wire::text_value;
use crate::wire::list_entry;
use crate::wire::push_list;
use crate::wire::push_text;
use crate::wire::text_entry;
use crate::wire::Payload;
use crate::wire::WireValue;
use vstd::prelude::*;

verus! {

/// Where every addition is sent.
pub const ENDPOINT: &'static str = "https://getpocket.com/v3/add";

/// Why an addition could not be put together.
#[derive(Debug, Clone, Copy, PartialEq, Eq)]
pub enum AddingError {
    InvalidParams(&'static str),
}

/// The parameters of an addition. A field that is `None` is a key that the
/// payload does not have.
#[derive(Debug, Clone, Copy, PartialEq, Eq)]
pub struct RequestParams<'a> {
    pub consumer_key: &'a str,
    pub access_token: &'a str,
    pub url: &'a str,
    pub title: Option<&'a str>,
    pub tags: Option<&'a [&'a str]>,
    pub tweet_id: Option<&'a str>,
}

/// The parameters of an addition as plain text.
pub struct RequestParamsView {
    pub consumer_key: Seq<char>,
    pub access_token: Seq<char>,
    pub url: Seq<char>,
    pub title: Option<Seq<char>>,
    pub tags: Option<Seq<Seq<char>>>,
    pub tweet_id: Option<Seq<char>>,
}

impl<'a> View for RequestParams<'a> {
    type V = RequestParamsView;

    open spec fn view(&self) -> RequestParamsView {
        RequestParamsView {
            consumer_key: self.consumer_key@,
            access_token: self.access_token@,
            url: self.url@,
            title: self.title.deep_view(),
            tags: self.tags.deep_view(),
            tweet_id: self.tweet_id.deep_view(),
        }
    }
}

impl RequestParamsView {
    /// The payload of an addition: the keys in the order in which they go
    /// out.
    pub open spec fn fields(self) -> Payload {
        Seq::empty() + text_entry("consumer_key"@, Some(self.consumer_key)) + text_entry(
            "access_token"@,
            Some(self.access_token),
        ) + text_entry("url"@, Some(self.url)) + text_entry("title"@, self.title) + list_entry(
            "tags"@,
            self.tags,
        ) + text_entry("tweet_id"@, self.tweet_id)
    }
}

impl<'a> RequestParams<'a> {
    /// The payload of this addition, ready to be encoded entry by entry.
    pub fn fields(&self) -> (fields: Vec<(&'static str, WireValue<'a>)>)
        ensures
            fields.deep_view() == self@.fields(),
    {
        let mut fields = empty_payload();
        push_text(&mut fields, "consumer_key", Some(self.consumer_key));
        push_text(&mut fields, "access_token", Some(self.access_token));
        push_text(&mut fields, "url", Some(self.url));
        push_text(&mut fields, "title", self.title);
        push_list(&mut fields, "tags", self.tags);
        push_text(&mut fields, "tweet_id", self.tweet_id);
        fields
    }
}

/// The keys that an addition can put on the wire.
pub open spec fn is_addition_key(key: Seq<char>) -> bool {
    ||| key == "consumer_key"@
    ||| key == "access_token"@
    ||| key == "url"@
    ||| key == "title"@
    ||| key == "tags"@
    ||| key == "tweet_id"@
}

/// What an addition's payload holds under each key: under the name of each
/// field that field's value where the field is set, nothing where it is not,
/// and nothing under any other key.
pub proof fn lemma_addition_payload(params: RequestParamsView)
    ensures
        lookup(params.fields(), "consumer_key"@) == text_value(Some(params.consumer_key)),
        lookup(params.fields(), "access_token"@) == text_value(Some(params.access_token)),
        lookup(params.fields(), "url"@) == text_value(Some(params.url)),
        lookup(params.fields(), "title"@) == text_value(params.title),
        lookup(params.fields(), "tags"@) == list_value(params.tags),
        lookup(params.fields(), "tweet_id"@) == text_value(params.tweet_id),
        forall|key: Seq<char>|
            (#[trigger] lookup(params.fields(), key)).is_some() ==> is_addition_key(key),
{
    reveal_strlit("consumer_key");
    reveal_strlit("access_token");
    reveal_strlit("url");
    reveal_strlit("title");
    reveal_strlit("tags");
    reveal_strlit("tweet_id");
    assert("consumer_key"@.len() == 12);
    assert("access_token"@.len() == 12);
    assert("url"@.len() == 3);
    assert("title"@.len() == 5);
    assert("tags"@.len() == 4);
    assert("tweet_id"@.len() == 8);
    assert("consumer_key"@[0] != "access_token"@[0]);
    let p0: Payload = Seq::empty();
    lemma_lookup_empty();
    lemma_lookup_entry(p0, "consumer_key"@, text_value(Some(params.consumer_key)));
    let p1 = p0 + text_entry("consumer_key"@, Some(params.consumer_key));
    lemma_lookup_entry(p1, "access_token"@, text_value(Some(params.access_token)));
    let p2 = p1 + text_entry("access_token"@, Some(params.access_token));
    lemma_lookup_entry(p2, "url"@, text_value(Some(params.url)));
    let p3 = p2 + text_entry("url"@, Some(params.url));
    lemma_lookup_entry(p3, "title"@, text_value(params.title));
    let p4 = p3 + text_entry("title"@, params.title);
    lemma_lookup_entry(p4, "tags"@, list_value(params.tags));
    let p5 = p4 + list_entry("tags"@, params.tags);
    lemma_lookup_entry(p5, "tweet_id"@, text_value(params.tweet_id));
    let p6 = p5 + text_entry("tweet_id"@, params.tweet_id);
    assert(p6 == params.fields());
}

impl GetPocketView {
    /// The parameters that an addition sends, or `None` where the facade has
    /// no access token. Everything goes out as given: an empty title is a
    /// title, an empty list of tags is a list.
    pub open spec fn add_params(
        self,
        url: Seq<char>,
        title: Option<Seq<char>>,
        tags: Option<Seq<Seq<char>>>,
        tweet_id: Option<Seq<char>>,
    ) -> Option<RequestParamsView> {
        match self.token.access_token {
            Some(access_token) => Some(
                RequestParamsView {
                    consumer_key: self.consumer_key,
                    access_token,
                    url,
                    title,
                    tags,
                    tweet_id,
                },
            ),
            None => None,
        }
    }
}

/// Whether a built addition is the one that the model asks for: the same
/// parameters, or the missing access token reported.
pub open spec fn addition_is<'a>(
    r: Result<RequestParams<'a>, AddingError>,
    expected: Option<RequestParamsView>,
) -> bool {
    match r {
        Ok(params) => expected == Some(params@),
        Err(err) => expected.is_none() && err == AddingError::InvalidParams("No access_token"),
    }
}

impl GetPocket {
    /// Builds the parameters of an addition. Without an access token nothing
    /// is built.
    pub fn add_item_with_params<'a>(
        &'a self,
        url: &'a str,
        title: Option<&'a str>,
        tags: Option<&'a [&'a str]>,
        tweet_id: Option<&'a str>,
    ) -> (r: Result<RequestParams<'a>, AddingError>)
        ensures
            r.is_ok() == self@.token.access_token.is_some(),
            addition_is(
                r,
                self@.add_params(url@, title.deep_view(), tags.deep_view(), tweet_id.deep_view()),
            ),
    {
        match &self.token.access_token {
            Some(access_token) => Ok(
                RequestParams {
                    consumer_key: self.consumer_key.as_str(),
                    access_token: access_token.as_str(),
                    url,
                    title,
                    tags,
                    tweet_id,
                },
            ),
            None => Err(AddingError::InvalidParams("No access_token")),
        }
    }

    /// Builds the parameters of an addition that names the address alone.
    pub fn add_item<'a>(&'a self, url: &'a str) -> (r: Result<RequestParams<'a>, AddingError>)
        ensures
            r.is_ok() == self@.token.access_token.is_some(),
            addition_is(r, self@.add_params(url@, None, None, None)),
    {
        self.add_item_with_params(url, None, None, None)
    }
}

/// What an addition answers: the item as the service now has it.
#[derive(Debug, Clone, PartialEq, Eq)]
pub struct RecordAdded {
    /// A JSON object: the item's identifier and attributes, unread.
    pub item: serde_json::Value,
    pub status: i32,
}

/// An addition's answer around what the item holds.
pub struct RecordAddedView {
    pub item: Json,
    pub status: i32,
}

impl View for RecordAdded {
    type V = RecordAddedView;

    open spec fn view(&self) -> RecordAddedView {
        RecordAddedView { item: json_of(self.item), status: self.status }
    }
}

/// The answer that a decoded body stands for, or `None` where it is none:
/// the item must be an object and the status must be there.
pub open spec fn added(body: Json) -> Option<RecordAddedView> {
    match (required_object_in(body.member("item"@)), required_status_in(body.member("status"@))) {
        (Some(item), Some(status)) => Some(RecordAddedView { item, status }),
        _ => None,
    }
}

/// Whether a decoded answer is the one that the model asks for: the same
/// answer, or the misfit reported where the model has none.
pub open spec fn added_is(
    r: Result<RecordAdded, ClientError>,
    expected: Option<RecordAddedView>,
) -> bool {
    match r {
        Ok(record) => expected == Some(record@),
        Err(err) => expected.is_none() && err == misfit_error(),
    }
}

impl RecordAdded {
    /// Reads the answer off a decoded body.
    pub fn resolve(body: &serde_json::Value) -> (r: Result<RecordAdded, ClientError>)
        ensures
            added_is(r, added(json_of(*body))),
    {
        match (read_required_object(body, "item"), read_required_status(body, "status")) {
            (Some(item), Some(status)) => Ok(RecordAdded { item, status }),
            _ => Err(misfit()),
        }
    }

    /// Decodes the body of a successful response. Text that is not JSON fails
    /// with the parser's own diagnostic.
    pub fn decode(body: &str) -> (r: Result<RecordAdded, ClientError>)
        ensures
            match parsed(body@) {
                Ok(json) => added_is(r, added(json)),
                Err(diagnostic) => r == Err::<RecordAdded, ClientError>(parse_error(diagnostic)),
            },
    {
        match parse_body(body) {
            Ok(value) => Self::resolve(&value),
            Err(err) => Err(err),
        }
    }
}

} // verus!
