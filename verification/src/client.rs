//! The facade and its token, the parameters of a modify-family call, and the
//! selections that a retrieval is made with.

use vstd::prelude::*;
use vstd::string::StringExecFns;

verus! {

/// Where every modify-family call is sent.
pub const ENDPOINT: &'static str = "https://getpocket.com/v3/send";

/// Failures that the facade itself reports.
#[derive(Debug)]
pub enum ClientError {
    /// A body that did not decode, with the decoder's own diagnostic.
    JsonError(serde_json::Error),
    /// The handshake was given something it cannot go on with.
    InvalidParams(&'static str),
    /// The service does not let the caller at the resource.
    AccessDenied,
    /// A credential that the step needs is missing, or is already there.
    TokenError,
    /// The operation is declared but has no behaviour yet.
    NotImplemented,
}

/// A modify answer as parallel arrays: one flag and one optional error per
/// action.
#[derive(Debug, PartialEq, Eq)]
pub struct StandardResponse {
    pub action_results: Vec<bool>,
    pub action_errors: Vec<Option<String>>,
    pub status: i32,
}

/// A modify answer whose results are a single value of unknown structure.
#[derive(Debug, PartialEq, Eq)]
pub struct ExtendedResponse {
    pub action_results: serde_json::Value,
    pub action_errors: Vec<Option<String>>,
    pub status: i32,
}

/// A modify answer in whichever of the two shapes it arrived.
#[derive(Debug, PartialEq, Eq)]
pub enum RecordSendDirect {
    Standart(StandardResponse),
    Extended(ExtendedResponse),
}

/// How far the authorization of a token has come.
#[derive(Debug, Clone, Copy, PartialEq, Eq, Structural)]
pub enum AuthState {
    /// Neither a code nor an access token.
    Unauthenticated,
    /// A code, and no access token yet.
    CodeObtained,
    /// An access token: nothing changes from here on.
    Authorized,
}

/// The short-lived code and the durable access token.
#[derive(Clone, Debug, PartialEq, Eq)]
pub struct Token {
    pub code: Option<String>,
    pub access_token: Option<String>,
}

/// A token as plain text.
pub struct TokenView {
    pub code: Option<Seq<char>>,
    pub access_token: Option<Seq<char>>,
}

impl TokenView {
    /// The state that the two fields stand for. An access token decides
    /// alone: once it is there the code no longer matters.
    pub open spec fn state(self) -> AuthState {
        if self.access_token.is_some() {
            AuthState::Authorized
        } else if self.code.is_some() {
            AuthState::CodeObtained
        } else {
            AuthState::Unauthenticated
        }
    }
}

impl View for Token {
    type V = TokenView;

    open spec fn view(&self) -> TokenView {
        TokenView { code: self.code.deep_view(), access_token: self.access_token.deep_view() }
    }
}

impl Default for Token {
    fn default() -> (token: Token)
        ensures
            token@ == (TokenView { code: None, access_token: None }),
    {
        Token { code: None, access_token: None }
    }
}

impl Token {
    /// An empty token.
    pub fn new() -> (token: Token)
        ensures
            token@ == (TokenView { code: None, access_token: None }),
            token@.state() == AuthState::Unauthenticated,
    {
        Token { code: None, access_token: None }
    }

    /// Stores the code and leaves the access token alone.
    pub fn set_code(&mut self, code: &str)
        ensures
            final(self)@.code == Some(code@),
            final(self).access_token == old(self).access_token,
    {
        self.code = Some(code.to_owned());
    }

    /// Stores the access token and leaves the code alone.
    pub fn set_access_token(&mut self, access_token: &str)
        ensures
            final(self)@.access_token == Some(access_token@),
            final(self).code == old(self).code,
    {
        self.access_token = Some(access_token.to_owned());
    }

    /// The state of this token.
    pub fn state(&self) -> (state: AuthState)
        ensures
            state == self@.state(),
    {
        if self.access_token.is_some() {
            AuthState::Authorized
        } else if self.code.is_some() {
            AuthState::CodeObtained
        } else {
            AuthState::Unauthenticated
        }
    }
}

/// The transport's fixed part: the headers that every request carries.
#[derive(Debug, Clone, PartialEq, Eq)]
pub struct Reqwester {
    pub headers: Vec<(&'static str, &'static str)>,
}

impl Reqwester {
    /// The two headers, by name and value, in the order in which they are set.
    pub open spec fn default_headers() -> Seq<(Seq<char>, Seq<char>)> {
        seq![
            ("Content-Type"@, "application/json; charset=UTF-8"@),
            ("X-Accept"@, "application/json"@),
        ]
    }

    /// Holds exactly the two fixed headers.
    pub open spec fn wf(&self) -> bool {
        self.headers.deep_view() == Self::default_headers()
    }
}

/// The facade: who is calling, and with which credentials.
#[derive(Debug, Clone)]
pub struct GetPocket {
    pub consumer_key: String,
    pub redirect_uri: String,
    pub token: Token,
    pub reqwester: Reqwester,
}

/// A facade as plain text.
pub struct GetPocketView {
    pub consumer_key: Seq<char>,
    pub redirect_uri: Seq<char>,
    pub token: TokenView,
    pub headers: Seq<(Seq<char>, Seq<char>)>,
}

impl View for GetPocket {
    type V = GetPocketView;

    open spec fn view(&self) -> GetPocketView {
        GetPocketView {
            consumer_key: self.consumer_key@,
            redirect_uri: self.redirect_uri@,
            token: self.token@,
            headers: self.reqwester.headers.deep_view(),
        }
    }
}

impl GetPocketView {
    /// This facade with another token.
    pub open spec fn with_token(self, token: TokenView) -> GetPocketView {
        GetPocketView { token, ..self }
    }
}

/// The parameters of a modify-family call around the caller's actions.
#[derive(Debug, PartialEq, Eq)]
pub struct SendParams<'a, T> {
    pub consumer_key: &'a str,
    pub access_token: &'a str,
    pub actions: T,
}

impl GetPocket {
    /// A facade without credentials, from which a handshake can start.
    pub open spec fn spec_init(consumer_key: Seq<char>, redirect_uri: Seq<char>) -> GetPocketView {
        GetPocketView {
            consumer_key,
            redirect_uri,
            token: TokenView { code: None, access_token: None },
            headers: Reqwester::default_headers(),
        }
    }

    /// A facade around an access token that the caller already has.
    pub open spec fn spec_new(
        consumer_key: Seq<char>,
        redirect_uri: Seq<char>,
        access_token: Seq<char>,
    ) -> GetPocketView {
        GetPocketView {
            consumer_key,
            redirect_uri,
            token: TokenView { code: None, access_token: Some(access_token) },
            headers: Reqwester::default_headers(),
        }
    }

    /// The transport's fixed headers.
    pub fn init_reqwester() -> (reqwester: Reqwester)
        ensures
            reqwester.wf(),
    {
        let mut headers: Vec<(&'static str, &'static str)> = Vec::new();
        headers.push(("Content-Type", "application/json; charset=UTF-8"));
        headers.push(("X-Accept", "application/json"));
        assert(headers.deep_view() =~= Reqwester::default_headers());
        Reqwester { headers }
    }

    /// Starts unauthenticated: the handshake has yet to run.
    pub fn init(consumer_key: String, redirect_uri: String) -> (client: GetPocket)
        ensures
            client@ == Self::spec_init(consumer_key@, redirect_uri@),
            client@.token.state() == AuthState::Unauthenticated,
            client.reqwester.wf(),
    {
        let token = Token::new();
        let reqwester = Self::init_reqwester();
        GetPocket { consumer_key, redirect_uri, reqwester, token }
    }

    /// Starts authorized, with the given access token; never fails.
    pub fn new(consumer_key: String, redirect_uri: String, access_token: String) -> (r: Result<
        GetPocket,
        ClientError,
    >)
        ensures
            r.is_ok(),
            r.unwrap()@ == Self::spec_new(consumer_key@, redirect_uri@, access_token@),
            r.unwrap()@.token.state() == AuthState::Authorized,
            r.unwrap().reqwester.wf(),
    {
        let mut token = Token::new();
        token.set_access_token(access_token.as_str());
        let reqwester = Self::init_reqwester();
        Ok(GetPocket { consumer_key, redirect_uri, reqwester, token })
    }

    /// The state of the facade's token.
    pub fn state(&self) -> (state: AuthState)
        ensures
            state == self@.token.state(),
    {
        self.token.state()
    }

    /// Puts the caller's actions between the consumer key and the access
    /// token. Without an access token there is nothing to send.
    pub fn send<T>(&self, params: T) -> (r: Result<SendParams<'_, T>, ClientError>)
        ensures
            r.is_ok() == self@.token.access_token.is_some(),
            r matches Ok(p) ==> p.consumer_key@ == self@.consumer_key && Some(p.access_token@)
                == self@.token.access_token && p.actions == params,
            r matches Err(e) ==> e == ClientError::TokenError,
    {
        match &self.token.access_token {
            Some(access_token) => Ok(
                SendParams {
                    consumer_key: self.consumer_key.as_str(),
                    access_token: access_token.as_str(),
                    actions: params,
                },
            ),
            None => Err(ClientError::TokenError),
        }
    }

    /// The address of a modify-family call: the endpoint, a question mark, and
    /// the encoded parameters as they are.
    pub fn send_url(urlencoded: &str) -> (url: String)
        ensures
            url@ == ENDPOINT@ + "?"@ + urlencoded@,
    {
        let mut url = String::from_str(ENDPOINT);
        url.append("?");
        url.append(urlencoded);
        url
    }
}

/// Which items a retrieval covers by their place in the list.
#[derive(Debug, Clone, Copy, PartialEq, Eq)]
pub enum RecordItemState {
    All,
    Unread,
    Archive,
}

/// Which items a retrieval covers by their favorite mark.
#[derive(Debug, Clone, Copy, PartialEq, Eq)]
pub enum RecordItemFavorite {
    All,
    Unfavorited,
    Favorited,
}

/// Which items a retrieval covers by their tags.
#[derive(Debug, Clone, Copy, PartialEq, Eq)]
pub enum RecordItemTag<'a> {
    All,
    TagName(&'a str),
    Untagged,
}

/// Which items a retrieval covers by their kind of content.
#[derive(Debug, Clone, Copy, PartialEq, Eq)]
pub enum RecordItemContentType {
    All,
    Article,
    Video,
    Image,
}

/// The order in which a retrieval lists its items.
#[derive(Debug, Clone, Copy, PartialEq, Eq)]
pub enum RecordItemSort {
    All,
    Newest,
    Oldest,
    Title,
    Site,
}

/// How much of each item a retrieval returns.
#[derive(Debug, Clone, Copy, PartialEq, Eq)]
pub enum RecordItemDetailType {
    All,
    Simple,
    Complete,
}

impl Default for RecordItemState {
    fn default() -> (state: RecordItemState)
        ensures
            state == RecordItemState::Unread,
    {
        RecordItemState::Unread
    }
}

impl Default for RecordItemFavorite {
    fn default() -> (favorite: RecordItemFavorite)
        ensures
            favorite == RecordItemFavorite::All,
    {
        RecordItemFavorite::All
    }
}

impl<'a> Default for RecordItemTag<'a> {
    fn default() -> (tag: RecordItemTag<'a>)
        ensures
            tag == RecordItemTag::All,
    {
        RecordItemTag::All
    }
}

impl Default for RecordItemContentType {
    fn default() -> (content_type: RecordItemContentType)
        ensures
            content_type == RecordItemContentType::All,
    {
        RecordItemContentType::All
    }
}

impl Default for RecordItemSort {
    fn default() -> (sort: RecordItemSort)
        ensures
            sort == RecordItemSort::All,
    {
        RecordItemSort::All
    }
}

impl Default for RecordItemDetailType {
    fn default() -> (detail_type: RecordItemDetailType)
        ensures
            detail_type == RecordItemDetailType::All,
    {
        RecordItemDetailType::All
    }
}

impl RecordItemState {
    /// What goes on the wire; `None` leaves the key out, which the service
    /// reads as "unread".
    pub open spec fn wire(self) -> Option<Seq<char>> {
        match self {
            RecordItemState::All => Some("all"@),
            RecordItemState::Unread => None,
            RecordItemState::Archive => Some("archive"@),
        }
    }

    /// The wire value of this selection.
    pub fn wire_value(&self) -> (r: Option<&'static str>)
        ensures
            r.deep_view() == self.wire(),
    {
        match self {
            RecordItemState::All => Some("all"),
            RecordItemState::Unread => None,
            RecordItemState::Archive => Some("archive"),
        }
    }
}

impl RecordItemFavorite {
    /// What goes on the wire; `None` leaves the key out.
    pub open spec fn wire(self) -> Option<i32> {
        match self {
            RecordItemFavorite::All => None,
            RecordItemFavorite::Unfavorited => Some(0i32),
            RecordItemFavorite::Favorited => Some(1i32),
        }
    }

    /// The wire value of this selection.
    pub fn wire_value(&self) -> (r: Option<i32>)
        ensures
            r == self.wire(),
    {
        match self {
            RecordItemFavorite::All => None,
            RecordItemFavorite::Unfavorited => Some(0),
            RecordItemFavorite::Favorited => Some(1),
        }
    }
}

impl<'a> RecordItemTag<'a> {
    /// What goes on the wire; `None` leaves the key out. A tag's name goes
    /// out as it is, the empty name too.
    pub open spec fn wire(self) -> Option<Seq<char>> {
        match self {
            RecordItemTag::All => None,
            RecordItemTag::TagName(name) => Some(name@),
            RecordItemTag::Untagged => Some("_untagged_"@),
        }
    }

    /// The wire value of this selection.
    pub fn wire_value(&self) -> (r: Option<&'a str>)
        ensures
            r.deep_view() == self.wire(),
    {
        match self {
            RecordItemTag::All => None,
            RecordItemTag::TagName(name) => Some(*name),
            RecordItemTag::Untagged => Some("_untagged_"),
        }
    }
}

impl RecordItemContentType {
    /// What goes on the wire; `None` leaves the key out.
    pub open spec fn wire(self) -> Option<Seq<char>> {
        match self {
            RecordItemContentType::All => None,
            RecordItemContentType::Article => Some("article"@),
            RecordItemContentType::Video => Some("video"@),
            RecordItemContentType::Image => Some("image"@),
        }
    }

    /// The wire value of this selection.
    pub fn wire_value(&self) -> (r: Option<&'static str>)
        ensures
            r.deep_view() == self.wire(),
    {
        match self {
            RecordItemContentType::All => None,
            RecordItemContentType::Article => Some("article"),
            RecordItemContentType::Video => Some("video"),
            RecordItemContentType::Image => Some("image"),
        }
    }
}

impl RecordItemSort {
    /// What goes on the wire; `None` leaves the key out.
    pub open spec fn wire(self) -> Option<Seq<char>> {
        match self {
            RecordItemSort::All => None,
            RecordItemSort::Newest => Some("newest"@),
            RecordItemSort::Oldest => Some("oldest"@),
            RecordItemSort::Title => Some("title"@),
            RecordItemSort::Site => Some("site"@),
        }
    }

    /// The wire value of this selection.
    pub fn wire_value(&self) -> (r: Option<&'static str>)
        ensures
            r.deep_view() == self.wire(),
    {
        match self {
            RecordItemSort::All => None,
            RecordItemSort::Newest => Some("newest"),
            RecordItemSort::Oldest => Some("oldest"),
            RecordItemSort::Title => Some("title"),
            RecordItemSort::Site => Some("site"),
        }
    }
}

impl RecordItemDetailType {
    /// What goes on the wire; `None` leaves the key out.
    pub open spec fn wire(self) -> Option<Seq<char>> {
        match self {
            RecordItemDetailType::All => None,
            RecordItemDetailType::Simple => Some("simple"@),
            RecordItemDetailType::Complete => Some("complete"@),
        }
    }

    /// The wire value of this selection.
    pub fn wire_value(&self) -> (r: Option<&'static str>)
        ensures
            r.deep_view() == self.wire(),
    {
        match self {
            RecordItemDetailType::All => None,
            RecordItemDetailType::Simple => Some("simple"),
            RecordItemDetailType::Complete => Some("complete"),
        }
    }
}

} // verus!
