//! Retrieving items: the parameters of a "get" call.

use crate::client::GetPocket;
use crate::client::GetPocketView;
use crate::client::RecordItemContentType;
use crate::client::RecordItemDetailType;
use crate::client::RecordItemFavorite;
use crate::client::RecordItemSort;
use crate::client::RecordItemState;
use crate::client::RecordItemTag;
use crate::client::ClientError;
use crate::decode::misfit;
use crate::decode::misfit_error;
use crate::decode::parse_error;
use crate::decode::optional_message_in;
use crate::decode::optional_status_in;
use crate::decode::parse_body;
use crate::decode::read_optional_message;
use crate::decode::read_optional_status;
use crate::decode::read_required_object;
use crate::decode::read_required_status;
use crate::decode::required_object_in;
use crate::decode::required_status_in;
use crate::json::json_of;
use crate::json::Json;
use crate::json::parsed;
use crate::wire::as_int;
use crate::wire::empty_payload;
use crate::wire::lemma_lookup_empty;
use crate::wire::lemma_lookup_entry;
use crate::wire::lookup;
use crate::wire::number_value;
use crate::wire::text_value;
use crate::wire::WireValueView;
use crate::wire::number_entry;
use crate::wire::push_number;
use crate::wire::push_text;
use crate::wire::text_entry;
use crate::wire::Payload;
use crate::wire::WireValue;
use vstd::prelude::*;

verus! {

/// Where every retrieval is sent.
pub const ENDPOINT: &'static str = "https://getpocket.com/v3/get";

/// Why a retrieval could not be put together.
#[derive(Debug, Clone, Copy, PartialEq, Eq)]
pub enum RetrievingError {
    InvalidParams(&'static str),
}

/// The parameters of a retrieval. A field that is `None` is a key that the
/// payload does not have: the service tells an absent key from a present one.
#[derive(Debug, Clone, Copy, PartialEq, Eq)]
pub struct RequestParams<'a> {
    pub consumer_key: &'a str,
    pub access_token: &'a str,
    pub state: Option<&'a str>,
    pub favorite: Option<i32>,
    pub tag: Option<&'a str>,
    pub content_type: Option<&'a str>,
    pub sort: Option<&'a str>,
    pub detail_type: Option<&'a str>,
    pub search: Option<&'a str>,
    pub domain: Option<&'a str>,
    pub since: Option<i32>,
    pub offset: i32,
    pub count: i32,
}

/// The parameters of a retrieval as plain text.
pub struct RequestParamsView {
    pub consumer_key: Seq<char>,
    pub access_token: Seq<char>,
    pub state: Option<Seq<char>>,
    pub favorite: Option<i32>,
    pub tag: Option<Seq<char>>,
    pub content_type: Option<Seq<char>>,
    pub sort: Option<Seq<char>>,
    pub detail_type: Option<Seq<char>>,
    pub search: Option<Seq<char>>,
    pub domain: Option<Seq<char>>,
    pub since: Option<i32>,
    pub offset: i32,
    pub count: i32,
}

impl<'a> View for RequestParams<'a> {
    type V = RequestParamsView;

    open spec fn view(&self) -> RequestParamsView {
        RequestParamsView {
            consumer_key: self.consumer_key@,
            access_token: self.access_token@,
            state: self.state.deep_view(),
            favorite: self.favorite,
            tag: self.tag.deep_view(),
            content_type: self.content_type.deep_view(),
            sort: self.sort.deep_view(),
            detail_type: self.detail_type.deep_view(),
            search: self.search.deep_view(),
            domain: self.domain.deep_view(),
            since: self.since,
            offset: self.offset,
            count: self.count,
        }
    }
}

impl RequestParamsView {
    /// The payload of a retrieval: the keys in the order in which they go
    /// out, under the names that the service knows them by.
    pub open spec fn fields(self) -> Payload {
        Seq::empty() + text_entry("consumer_key"@, Some(self.consumer_key)) + text_entry(
            "access_token"@,
            Some(self.access_token),
        ) + text_entry("state"@, self.state) + number_entry("favorite"@, as_int(self.favorite))
            + text_entry("tag"@, self.tag) + text_entry("contentType"@, self.content_type)
            + text_entry("sort"@, self.sort) + text_entry("detailType"@, self.detail_type)
            + text_entry("search"@, self.search) + text_entry("domain"@, self.domain)
            + number_entry("since"@, as_int(self.since)) + number_entry(
            "offset"@,
            Some(self.offset as int),
        ) + number_entry("count"@, Some(self.count as int))
    }
}

impl<'a> RequestParams<'a> {
    /// The payload of this retrieval, ready to be encoded entry by entry.
    pub fn fields(&self) -> (fields: Vec<(&'static str, WireValue<'a>)>)
        ensures
            fields.deep_view() == self@.fields(),
    {
        let mut fields = empty_payload();
        push_text(&mut fields, "consumer_key", Some(self.consumer_key));
        push_text(&mut fields, "access_token", Some(self.access_token));
        push_text(&mut fields, "state", self.state);
        push_number(&mut fields, "favorite", self.favorite);
        push_text(&mut fields, "tag", self.tag);
        push_text(&mut fields, "contentType", self.content_type);
        push_text(&mut fields, "sort", self.sort);
        push_text(&mut fields, "detailType", self.detail_type);
        push_text(&mut fields, "search", self.search);
        push_text(&mut fields, "domain", self.domain);
        push_number(&mut fields, "since", self.since);
        push_number(&mut fields, "offset", Some(self.offset));
        push_number(&mut fields, "count", Some(self.count));
        fields
    }
}

/// A free-text filter on the wire: an empty text counts as none given.
pub open spec fn text_filter(text: Option<Seq<char>>) -> Option<Seq<char>> {
    match text {
        Some(t) => if t.len() > 0 {
            Some(t)
        } else {
            None
        },
        None => None,
    }
}

/// The sync cursor on the wire: a negative cursor counts as none given.
pub open spec fn since_filter(since: Option<i32>) -> Option<i32> {
    match since {
        Some(s) => if s >= 0 {
            Some(s)
        } else {
            None
        },
        None => None,
    }
}

impl GetPocketView {
    /// The parameters that a retrieval with these selections sends, or `None`
    /// where the facade has no access token. Offset and count go out as given.
    pub open spec fn retrieve_params(
        self,
        state: RecordItemState,
        favorite: RecordItemFavorite,
        tag: RecordItemTag,
        content_type: RecordItemContentType,
        sort: RecordItemSort,
        detail_type: RecordItemDetailType,
        search: Option<Seq<char>>,
        domain: Option<Seq<char>>,
        since: Option<i32>,
        offset: i32,
        count: i32,
    ) -> Option<RequestParamsView> {
        match self.token.access_token {
            Some(access_token) => Some(
                RequestParamsView {
                    consumer_key: self.consumer_key,
                    access_token,
                    state: state.wire(),
                    favorite: favorite.wire(),
                    tag: tag.wire(),
                    content_type: content_type.wire(),
                    sort: sort.wire(),
                    detail_type: detail_type.wire(),
                    search: text_filter(search),
                    domain: text_filter(domain),
                    since: since_filter(since),
                    offset,
                    count,
                },
            ),
            None => None,
        }
    }

    /// A page of the list with every selection at its default.
    pub open spec fn page_params(self, offset: i32, count: i32) -> Option<RequestParamsView> {
        self.retrieve_params(
            RecordItemState::Unread,
            RecordItemFavorite::All,
            RecordItemTag::All,
            RecordItemContentType::All,
            RecordItemSort::All,
            RecordItemDetailType::All,
            None,
            None,
            None,
            offset,
            count,
        )
    }

    /// The plain list: the first 25 unread items, with no key on the wire
    /// besides the credentials, the offset and the count.
    pub open spec fn list_params(self) -> Option<RequestParamsView> {
        match self.token.access_token {
            Some(access_token) => Some(
                RequestParamsView {
                    consumer_key: self.consumer_key,
                    access_token,
                    state: None,
                    favorite: None,
                    tag: None,
                    content_type: None,
                    sort: None,
                    detail_type: None,
                    search: None,
                    domain: None,
                    since: None,
                    offset: 0,
                    count: 25,
                },
            ),
            None => None,
        }
    }
}

/// The plain list is a page like any other: it sends what a page at offset 0
/// with 25 items sends, which is what a retrieval with every selection at its
/// default, no free-text filter and no cursor sends, field for field.
pub proof fn lemma_list_is_first_page(client: GetPocketView)
    ensures
        client.list_params() == client.page_params(0, 25),
        client.list_params() == client.retrieve_params(
            RecordItemState::Unread,
            RecordItemFavorite::All,
            RecordItemTag::All,
            RecordItemContentType::All,
            RecordItemSort::All,
            RecordItemDetailType::All,
            None,
            None,
            None,
            0,
            25,
        ),
{
}

/// The keys that a retrieval can put on the wire.
pub open spec fn is_retrieval_key(key: Seq<char>) -> bool {
    ||| key == "consumer_key"@
    ||| key == "access_token"@
    ||| key == "state"@
    ||| key == "favorite"@
    ||| key == "tag"@
    ||| key == "contentType"@
    ||| key == "sort"@
    ||| key == "detailType"@
    ||| key == "search"@
    ||| key == "domain"@
    ||| key == "since"@
    ||| key == "offset"@
    ||| key == "count"@
}

/// What a retrieval's payload holds under each key. Under the name of each
/// field it holds that field's value where the field is set and nothing
/// where it is not: an unset field is an absent key, never a key with an
/// empty value. Under any other key it holds nothing.
pub proof fn lemma_retrieval_payload(params: RequestParamsView)
    ensures
        lookup(params.fields(), "consumer_key"@) == text_value(Some(params.consumer_key)),
        lookup(params.fields(), "access_token"@) == text_value(Some(params.access_token)),
        lookup(params.fields(), "state"@) == text_value(params.state),
        lookup(params.fields(), "favorite"@) == number_value(as_int(params.favorite)),
        lookup(params.fields(), "tag"@) == text_value(params.tag),
        lookup(params.fields(), "contentType"@) == text_value(params.content_type),
        lookup(params.fields(), "sort"@) == text_value(params.sort),
        lookup(params.fields(), "detailType"@) == text_value(params.detail_type),
        lookup(params.fields(), "search"@) == text_value(params.search),
        lookup(params.fields(), "domain"@) == text_value(params.domain),
        lookup(params.fields(), "since"@) == number_value(as_int(params.since)),
        lookup(params.fields(), "offset"@) == number_value(Some(params.offset as int)),
        lookup(params.fields(), "count"@) == number_value(Some(params.count as int)),
        forall|key: Seq<char>|
            (#[trigger] lookup(params.fields(), key)).is_some() ==> is_retrieval_key(key),
{
    reveal_strlit("consumer_key");
    reveal_strlit("access_token");
    reveal_strlit("state");
    reveal_strlit("favorite");
    reveal_strlit("tag");
    reveal_strlit("contentType");
    reveal_strlit("sort");
    reveal_strlit("detailType");
    reveal_strlit("search");
    reveal_strlit("domain");
    reveal_strlit("since");
    reveal_strlit("offset");
    reveal_strlit("count");
    assert("consumer_key"@.len() == 12);
    assert("access_token"@.len() == 12);
    assert("state"@.len() == 5);
    assert("favorite"@.len() == 8);
    assert("tag"@.len() == 3);
    assert("contentType"@.len() == 11);
    assert("sort"@.len() == 4);
    assert("detailType"@.len() == 10);
    assert("search"@.len() == 6);
    assert("domain"@.len() == 6);
    assert("since"@.len() == 5);
    assert("offset"@.len() == 6);
    assert("count"@.len() == 5);
    assert("consumer_key"@[0] != "access_token"@[0]);
    assert("state"@[1] != "since"@[1]);
    assert("state"@[0] != "count"@[0]);
    assert("search"@[0] != "domain"@[0]);
    assert("search"@[0] != "offset"@[0]);
    assert("domain"@[0] != "offset"@[0]);
    assert("since"@[0] != "count"@[0]);
    let p0: Payload = Seq::empty();
    lemma_lookup_empty();
    lemma_lookup_entry(p0, "consumer_key"@, text_value(Some(params.consumer_key)));
    let p1 = p0 + text_entry("consumer_key"@, Some(params.consumer_key));
    lemma_lookup_entry(p1, "access_token"@, text_value(Some(params.access_token)));
    let p2 = p1 + text_entry("access_token"@, Some(params.access_token));
    lemma_lookup_entry(p2, "state"@, text_value(params.state));
    let p3 = p2 + text_entry("state"@, params.state);
    lemma_lookup_entry(p3, "favorite"@, number_value(as_int(params.favorite)));
    let p4 = p3 + number_entry("favorite"@, as_int(params.favorite));
    lemma_lookup_entry(p4, "tag"@, text_value(params.tag));
    let p5 = p4 + text_entry("tag"@, params.tag);
    lemma_lookup_entry(p5, "contentType"@, text_value(params.content_type));
    let p6 = p5 + text_entry("contentType"@, params.content_type);
    lemma_lookup_entry(p6, "sort"@, text_value(params.sort));
    let p7 = p6 + text_entry("sort"@, params.sort);
    lemma_lookup_entry(p7, "detailType"@, text_value(params.detail_type));
    let p8 = p7 + text_entry("detailType"@, params.detail_type);
    lemma_lookup_entry(p8, "search"@, text_value(params.search));
    let p9 = p8 + text_entry("search"@, params.search);
    lemma_lookup_entry(p9, "domain"@, text_value(params.domain));
    let p10 = p9 + text_entry("domain"@, params.domain);
    lemma_lookup_entry(p10, "since"@, number_value(as_int(params.since)));
    let p11 = p10 + number_entry("since"@, as_int(params.since));
    lemma_lookup_entry(p11, "offset"@, number_value(Some(params.offset as int)));
    let p12 = p11 + number_entry("offset"@, Some(params.offset as int));
    lemma_lookup_entry(p12, "count"@, number_value(Some(params.count as int)));
    let p13 = p12 + number_entry("count"@, Some(params.count as int));
    assert(p13 == params.fields());
}

/// Which keys a retrieval puts on the wire, and with which values.
/// Credentials, offset and count are always there as given. Each selection's
/// key holds the selection's wire value, and is absent exactly when the
/// selection is the one that the service assumes by itself. A free-text
/// filter's key is there exactly when a text of at least one character was
/// given, the cursor's key exactly when a cursor of zero or more was given,
/// each with the value given. No other key is there.
pub proof fn lemma_retrieval_keys(
    client: GetPocketView,
    state: RecordItemState,
    favorite: RecordItemFavorite,
    tag: RecordItemTag,
    content_type: RecordItemContentType,
    sort: RecordItemSort,
    detail_type: RecordItemDetailType,
    search: Option<Seq<char>>,
    domain: Option<Seq<char>>,
    since: Option<i32>,
    offset: i32,
    count: i32,
)
    requires
        client.token.access_token.is_some(),
    ensures
        ({
            let sent = client.retrieve_params(
                state,
                favorite,
                tag,
                content_type,
                sort,
                detail_type,
                search,
                domain,
                since,
                offset,
                count,
            );
            let payload = sent.unwrap().fields();
            &&& sent.is_some()
            &&& lookup(payload, "consumer_key"@) == Some(WireValueView::Text(client.consumer_key))
            &&& lookup(payload, "access_token"@) == text_value(client.token.access_token)
            &&& lookup(payload, "offset"@) == Some(WireValueView::Number(offset as int))
            &&& lookup(payload, "count"@) == Some(WireValueView::Number(count as int))
            &&& lookup(payload, "state"@) == text_value(state.wire())
            &&& lookup(payload, "favorite"@) == number_value(as_int(favorite.wire()))
            &&& lookup(payload, "tag"@) == text_value(tag.wire())
            &&& lookup(payload, "contentType"@) == text_value(content_type.wire())
            &&& lookup(payload, "sort"@) == text_value(sort.wire())
            &&& lookup(payload, "detailType"@) == text_value(detail_type.wire())
            &&& lookup(payload, "state"@).is_none() <==> state is Unread
            &&& lookup(payload, "favorite"@).is_none() <==> favorite is All
            &&& lookup(payload, "tag"@).is_none() <==> tag is All
            &&& lookup(payload, "contentType"@).is_none() <==> content_type is All
            &&& lookup(payload, "sort"@).is_none() <==> sort is All
            &&& lookup(payload, "detailType"@).is_none() <==> detail_type is All
            &&& lookup(payload, "search"@) == (if search matches Some(text) && text.len() > 0 {
                text_value(search)
            } else {
                None
            })
            &&& lookup(payload, "domain"@) == (if domain matches Some(text) && text.len() > 0 {
                text_value(domain)
            } else {
                None
            })
            &&& lookup(payload, "since"@) == (if since matches Some(cursor) && cursor >= 0 {
                number_value(as_int(since))
            } else {
                None
            })
            &&& forall|key: Seq<char>|
                (#[trigger] lookup(payload, key)).is_some() ==> is_retrieval_key(key)
        }),
{
    let sent = client.retrieve_params(
        state,
        favorite,
        tag,
        content_type,
        sort,
        detail_type,
        search,
        domain,
        since,
        offset,
        count,
    );
    lemma_retrieval_payload(sent.unwrap());
}

/// Whether a built retrieval is the one that the model asks for: the same
/// parameters, or the missing access token reported.
pub open spec fn retrieval_is<'a>(
    r: Result<RequestParams<'a>, RetrievingError>,
    expected: Option<RequestParamsView>,
) -> bool {
    match r {
        Ok(params) => expected == Some(params@),
        Err(err) => expected.is_none() && err == RetrievingError::InvalidParams("No access_token"),
    }
}

impl GetPocket {
    /// Builds the parameters of a retrieval from the selections, each by its
    /// wire value. Without an access token nothing is built.
    pub fn list_of_items_with_params<'a>(
        &'a self,
        state: RecordItemState,
        favorite: RecordItemFavorite,
        tag: RecordItemTag<'a>,
        content_type: RecordItemContentType,
        sort: RecordItemSort,
        detail_type: RecordItemDetailType,
        search: Option<&'a str>,
        domain: Option<&'a str>,
        since: Option<&i32>,
        offset: i32,
        count: i32,
    ) -> (r: Result<RequestParams<'a>, RetrievingError>)
        ensures
            r.is_ok() == self@.token.access_token.is_some(),
            retrieval_is(
                r,
                self@.retrieve_params(
                    state,
                    favorite,
                    tag,
                    content_type,
                    sort,
                    detail_type,
                    search.deep_view(),
                    domain.deep_view(),
                    since.deep_view(),
                    offset,
                    count,
                ),
            ),
    {
        match &self.token.access_token {
            Some(access_token) => Ok(
                RequestParams {
                    consumer_key: self.consumer_key.as_str(),
                    access_token: access_token.as_str(),
                    state: state.wire_value(),
                    favorite: favorite.wire_value(),
                    tag: tag.wire_value(),
                    content_type: content_type.wire_value(),
                    sort: sort.wire_value(),
                    detail_type: detail_type.wire_value(),
                    search: match search {
                        Some(text) => if !text.is_empty() {
                            Some(text)
                        } else {
                            None
                        },
                        None => None,
                    },
                    domain: match domain {
                        Some(text) => if !text.is_empty() {
                            Some(text)
                        } else {
                            None
                        },
                        None => None,
                    },
                    since: match since {
                        Some(cursor) => if *cursor >= 0 {
                            Some(*cursor)
                        } else {
                            None
                        },
                        None => None,
                    },
                    offset,
                    count,
                },
            ),
            None => Err(RetrievingError::InvalidParams("No access_token")),
        }
    }

    /// A page of the list with every selection at its default.
    pub fn list_of_items_paginate(&self, offset: i32, count: i32) -> (r: Result<
        RequestParams<'_>,
        RetrievingError,
    >)
        ensures
            r.is_ok() == self@.token.access_token.is_some(),
            retrieval_is(r, self@.page_params(offset, count)),
    {
        self.list_of_items_with_params(
            RecordItemState::default(),
            RecordItemFavorite::default(),
            RecordItemTag::default(),
            RecordItemContentType::default(),
            RecordItemSort::default(),
            RecordItemDetailType::default(),
            None,
            None,
            None,
            offset,
            count,
        )
    }

    /// The first page of the list.
    pub fn list_of_items(&self) -> (r: Result<RequestParams<'_>, RetrievingError>)
        ensures
            r.is_ok() == self@.token.access_token.is_some(),
            retrieval_is(r, self@.list_params()),
    {
        self.list_of_items_paginate(0, 25)
    }
}

/// What a retrieval answers: the items by their identifiers, and where the
/// list stands.
#[derive(Debug, Clone, PartialEq, Eq)]
pub struct RecordItem {
    pub status: i32,
    pub complete: Option<i32>,
    pub error: Option<String>,
    /// The cursor to hand to the next retrieval that asks for changes only.
    pub since: i32,
    /// A JSON object: each item under its identifier, its payload unread.
    pub list: serde_json::Value,
}

/// A retrieval's answer as plain text around the items.
pub struct RecordItemView {
    pub status: i32,
    pub complete: Option<i32>,
    pub error: Option<Seq<char>>,
    pub since: i32,
    pub list: Json,
}

impl View for RecordItem {
    type V = RecordItemView;

    open spec fn view(&self) -> RecordItemView {
        RecordItemView {
            status: self.status,
            complete: self.complete,
            error: self.error.deep_view(),
            since: self.since,
            list: json_of(self.list),
        }
    }
}

/// The answer that a decoded body stands for, or `None` where it is none:
/// status and cursor must be there, the list must be an object, and the
/// completion mark and the error may be absent or `null`.
pub open spec fn retrieved(body: Json) -> Option<RecordItemView> {
    match (
        required_status_in(body.member("status"@)),
        optional_status_in(body.member("complete"@)),
        optional_message_in(body.member("error"@)),
        required_status_in(body.member("since"@)),
        required_object_in(body.member("list"@)),
    ) {
        (Some(status), Some(complete), Some(error), Some(since), Some(list)) => Some(
            RecordItemView { status, complete, error, since, list },
        ),
        _ => None,
    }
}

/// Whether a decoded answer is the one that the model asks for: the same
/// answer, or the misfit reported where the model has none.
pub open spec fn retrieved_is(
    r: Result<RecordItem, ClientError>,
    expected: Option<RecordItemView>,
) -> bool {
    match r {
        Ok(record) => expected == Some(record@),
        Err(err) => expected.is_none() && err == misfit_error(),
    }
}

impl RecordItem {
    /// Reads the answer off a decoded body.
    pub fn resolve(body: &serde_json::Value) -> (r: Result<RecordItem, ClientError>)
        ensures
            retrieved_is(r, retrieved(json_of(*body))),
    {
        match (
            read_required_status(body, "status"),
            read_optional_status(body, "complete"),
            read_optional_message(body, "error"),
            read_required_status(body, "since"),
            read_required_object(body, "list"),
        ) {
            (Some(status), Some(complete), Some(error), Some(since), Some(list)) => Ok(
                RecordItem { status, complete, error, since, list },
            ),
            _ => Err(misfit()),
        }
    }

    /// Decodes the body of a successful response. Text that is not JSON fails
    /// with the parser's own diagnostic.
    pub fn decode(body: &str) -> (r: Result<RecordItem, ClientError>)
        ensures
            match parsed(body@) {
                Ok(json) => retrieved_is(r, retrieved(json)),
                Err(diagnostic) => r == Err::<RecordItem, ClientError>(parse_error(diagnostic)),
            },
    {
        match parse_body(body) {
            Ok(value) => Self::resolve(&value),
            Err(err) => Err(err),
        }
    }
}

} // verus!
