//! What holds of the facade across its capabilities.

use crate::client::AuthState;
use crate::client::ClientError;
use crate::client::GetPocket;
use crate::client::GetPocketView;
use crate::client::RecordItemContentType;
use crate::client::RecordItemDetailType;
use crate::client::RecordItemFavorite;
use crate::client::RecordItemSort;
use crate::client::RecordItemState;
use crate::client::RecordItemTag;
use crate::client::SendParams;
use crate::ext::adding;
use crate::ext::modifying::send_is;
use crate::ext::retrieving;
use crate::handshake::HandshakeEventView;
use vstd::prelude::*;

verus! {

/// Without an access token no retrieval is built, whatever is selected: the
/// call reports the missing token and there is nothing to send.
pub proof fn lemma_no_token_no_retrieval<'a>(
    client: GetPocketView,
    r: Result<retrieving::RequestParams<'a>, retrieving::RetrievingError>,
    state: RecordItemState,
    favorite: RecordItemFavorite,
    tag: RecordItemTag,
    content_type: RecordItemContentType,
    sort: RecordItemSort,
    detail_type: RecordItemDetailType,
    search: Option<Seq<char>>,
    domain: Option<Seq<char>>,
    since: Option<i32>,
    offset: i32,
    count: i32,
)
    requires
        client.token.access_token.is_none(),
    ensures
        client.list_params().is_none(),
        client.page_params(offset, count).is_none(),
        client.retrieve_params(
            state,
            favorite,
            tag,
            content_type,
            sort,
            detail_type,
            search,
            domain,
            since,
            offset,
            count,
        ).is_none(),
        retrieving::retrieval_is(r, None) ==> r == Err::<
            retrieving::RequestParams<'a>,
            retrieving::RetrievingError,
        >(retrieving::RetrievingError::InvalidParams("No access_token")),
{
}

/// Without an access token no addition is built, whatever is to be added.
pub proof fn lemma_no_token_no_addition<'a>(
    client: GetPocketView,
    r: Result<adding::RequestParams<'a>, adding::AddingError>,
    url: Seq<char>,
    title: Option<Seq<char>>,
    tags: Option<Seq<Seq<char>>>,
    tweet_id: Option<Seq<char>>,
)
    requires
        client.token.access_token.is_none(),
    ensures
        client.add_params(url, title, tags, tweet_id).is_none(),
        adding::addition_is(r, None) ==> r == Err::<adding::RequestParams<'a>, adding::AddingError>(
            adding::AddingError::InvalidParams("No access_token"),
        ),
{
}

/// Without an access token no modification is built, whatever the action.
pub proof fn lemma_no_token_no_modification<'a, T>(
    client: GetPocketView,
    r: Result<SendParams<'a, [T; 1]>, ClientError>,
    action: T,
)
    requires
        client.token.access_token.is_none(),
        send_is(r, client, action),
    ensures
        r == Err::<SendParams<'a, [T; 1]>, ClientError>(ClientError::TokenError),
{
}

/// A facade made around an access token is authorized from the start. Its
/// plain list goes out under that very token and the consumer key it was made
/// with, and the handshake has nothing to ask of it: every event is refused
/// and leaves the token as it is.
pub proof fn lemma_direct_construction(
    consumer_key: Seq<char>,
    redirect_uri: Seq<char>,
    access_token: Seq<char>,
    event: HandshakeEventView,
    target: Option<Seq<char>>,
)
    ensures
        ({
            let client = GetPocket::spec_new(consumer_key, redirect_uri, access_token);
            &&& client.token.state() == AuthState::Authorized
            &&& client.list_params() matches Some(params)
            &&& params.access_token == access_token
            &&& params.consumer_key == consumer_key
            &&& client.handshake_action(event, target).is_err()
            &&& client.handshake_token(event) == client.token
        }),
{
}

} // verus!
