//! The authorization handshake as a state machine.
//!
//! The machine never talks to anyone. It is told what happened, as a
//! [`HandshakeEvent`], and answers with what is to happen next, as a
//! [`HandshakeAction`]: a request to send, a link to show, or a token to keep.
//! Whoever drives it performs the action and reports back.

use crate::client::AuthState;
use crate::client::ClientError;
use crate::client::GetPocket;
use crate::client::GetPocketView;
use crate::client::TokenView;
use crate::decode::misfit;
use crate::decode::misfit_error;
use crate::decode::parse_error;
use crate::decode::parse_body;
use crate::decode::read_required_text;
use crate::decode::required_text_in;
use crate::json::json_of;
use crate::json::Json;
use crate::json::parsed;
use crate::wire::empty_payload;
use crate::wire::push_text;
use crate::wire::text_entry;
use crate::wire::Payload;
use crate::wire::WireValue;
use vstd::prelude::*;
use vstd::string::StringExecFns;

verus! {

/// Where a code is requested.
pub const CODE_ENDPOINT: &'static str = "https://getpocket.com/v3/oauth/request";

/// Where a code is exchanged for an access token.
pub const TOKEN_ENDPOINT: &'static str = "https://getpocket.com/v3/oauth/authorize";

/// The body of a code request.
#[derive(Debug, PartialEq, Eq)]
pub struct CodeRequest {
    pub consumer_key: String,
    pub redirect_uri: String,
}

/// The body of a token exchange.
#[derive(Debug, PartialEq, Eq)]
pub struct TokenRequest {
    pub consumer_key: String,
    pub code: String,
}

impl CodeRequest {
    /// The payload of a code request.
    pub open spec fn spec_fields(&self) -> Payload {
        Seq::empty() + text_entry("consumer_key"@, Some(self.consumer_key@)) + text_entry(
            "redirect_uri"@,
            Some(self.redirect_uri@),
        )
    }

    /// The payload of this request, ready to be encoded entry by entry.
    pub fn fields<'a>(&'a self) -> (fields: Vec<(&'static str, WireValue<'a>)>)
        ensures
            fields.deep_view() == self.spec_fields(),
    {
        let mut fields = empty_payload();
        push_text(&mut fields, "consumer_key", Some(self.consumer_key.as_str()));
        push_text(&mut fields, "redirect_uri", Some(self.redirect_uri.as_str()));
        fields
    }
}

impl TokenRequest {
    /// The payload of a token exchange.
    pub open spec fn spec_fields(&self) -> Payload {
        Seq::empty() + text_entry("consumer_key"@, Some(self.consumer_key@)) + text_entry(
            "code"@,
            Some(self.code@),
        )
    }

    /// The payload of this request, ready to be encoded entry by entry.
    pub fn fields<'a>(&'a self) -> (fields: Vec<(&'static str, WireValue<'a>)>)
        ensures
            fields.deep_view() == self.spec_fields(),
    {
        let mut fields = empty_payload();
        push_text(&mut fields, "consumer_key", Some(self.consumer_key.as_str()));
        push_text(&mut fields, "code", Some(self.code.as_str()));
        fields
    }
}

/// What has happened since the last step.
#[derive(Debug, PartialEq, Eq)]
pub enum HandshakeEvent {
    /// Nothing yet: the handshake is to start.
    Begin,
    /// The service answered the code request with this code.
    Code(String),
    /// The user was shown the link, and this is whether to assume approval.
    Approval(bool),
    /// The service answered the exchange with this access token.
    AccessToken(String),
}

/// What is to happen next.
#[derive(Debug, PartialEq, Eq)]
pub enum HandshakeAction {
    /// Send this to [`CODE_ENDPOINT`].
    RequestCode(CodeRequest),
    /// Have the user open this link and approve.
    Approve(String),
    /// Send this to [`TOKEN_ENDPOINT`].
    Exchange(TokenRequest),
    /// Keep this access token for later runs: the handshake is over.
    Persist(String),
}

/// An event as plain text.
pub enum HandshakeEventView {
    Begin,
    Code(Seq<char>),
    Approval(bool),
    AccessToken(Seq<char>),
}

/// An action as plain text.
pub enum HandshakeActionView {
    RequestCode { consumer_key: Seq<char>, redirect_uri: Seq<char> },
    Approve(Seq<char>),
    Exchange { consumer_key: Seq<char>, code: Seq<char> },
    Persist(Seq<char>),
}

impl View for HandshakeEvent {
    type V = HandshakeEventView;

    open spec fn view(&self) -> HandshakeEventView {
        match self {
            HandshakeEvent::Begin => HandshakeEventView::Begin,
            HandshakeEvent::Code(code) => HandshakeEventView::Code(code@),
            HandshakeEvent::Approval(approved) => HandshakeEventView::Approval(*approved),
            HandshakeEvent::AccessToken(token) => HandshakeEventView::AccessToken(token@),
        }
    }
}

impl View for HandshakeAction {
    type V = HandshakeActionView;

    open spec fn view(&self) -> HandshakeActionView {
        match self {
            HandshakeAction::RequestCode(request) => HandshakeActionView::RequestCode {
                consumer_key: request.consumer_key@,
                redirect_uri: request.redirect_uri@,
            },
            HandshakeAction::Approve(url) => HandshakeActionView::Approve(url@),
            HandshakeAction::Exchange(request) => HandshakeActionView::Exchange {
                consumer_key: request.consumer_key@,
                code: request.code@,
            },
            HandshakeAction::Persist(token) => HandshakeActionView::Persist(token@),
        }
    }
}

/// The link that the user approves: the code, then the place to return to,
/// which is the service's own site unless the caller names another.
pub open spec fn authorization_url(code: Seq<char>, redirect_uri: Option<Seq<char>>) -> Seq<char> {
    "https://getpocket.com/auth/authorize?request_token="@ + code + "&redirect_uri="@ + (
    match redirect_uri {
        Some(target) => target,
        None => "https://getpocket.com"@,
    })
}

impl GetPocketView {
    /// What the machine answers to an event. Each event but a declined
    /// approval is accepted in one state only; anywhere else it is a token
    /// error. A declined approval is refused in every state.
    pub open spec fn handshake_action(
        self,
        event: HandshakeEventView,
        redirect_uri: Option<Seq<char>>,
    ) -> Result<HandshakeActionView, ClientError> {
        match event {
            HandshakeEventView::Begin => if self.token.state() == AuthState::Unauthenticated {
                Ok(
                    HandshakeActionView::RequestCode {
                        consumer_key: self.consumer_key,
                        redirect_uri: self.redirect_uri,
                    },
                )
            } else {
                Err(ClientError::TokenError)
            },
            HandshakeEventView::Code(code) => if self.token.state() == AuthState::Unauthenticated {
                Ok(HandshakeActionView::Approve(authorization_url(code, redirect_uri)))
            } else {
                Err(ClientError::TokenError)
            },
            HandshakeEventView::Approval(approved) => if !approved {
                Err(
                    ClientError::InvalidParams("No token was provided from the callback function."),
                )
            } else if self.token.state() == AuthState::CodeObtained {
                Ok(
                    HandshakeActionView::Exchange {
                        consumer_key: self.consumer_key,
                        code: self.token.code.unwrap(),
                    },
                )
            } else {
                Err(ClientError::TokenError)
            },
            HandshakeEventView::AccessToken(token) => if self.token.state()
                == AuthState::CodeObtained {
                Ok(HandshakeActionView::Persist(token))
            } else {
                Err(ClientError::TokenError)
            },
        }
    }

    /// The token after an event. Only two events write, each in its one
    /// state: a code is stored while unauthenticated, an access token once a
    /// code is there.
    pub open spec fn handshake_token(self, event: HandshakeEventView) -> TokenView {
        match event {
            HandshakeEventView::Code(code) => if self.token.state() == AuthState::Unauthenticated {
                TokenView { code: Some(code), ..self.token }
            } else {
                self.token
            },
            HandshakeEventView::AccessToken(token) => if self.token.state()
                == AuthState::CodeObtained {
                TokenView { access_token: Some(token), ..self.token }
            } else {
                self.token
            },
            _ => self.token,
        }
    }
}

/// A declined approval is refused as invalid parameters in every state, and
/// the token stays as it was: no exchange is asked for.
pub proof fn lemma_declined_approval(client: GetPocketView, redirect_uri: Option<Seq<char>>)
    ensures
        client.handshake_action(HandshakeEventView::Approval(false), redirect_uri) == Err::<
            HandshakeActionView,
            ClientError,
        >(ClientError::InvalidParams("No token was provided from the callback function.")),
        client.handshake_token(HandshakeEventView::Approval(false)) == client.token,
{
}

/// A refused event changes nothing.
pub proof fn lemma_refusal_keeps_token(
    client: GetPocketView,
    event: HandshakeEventView,
    redirect_uri: Option<Seq<char>>,
)
    requires
        client.handshake_action(event, redirect_uri).is_err(),
    ensures
        client.handshake_token(event) == client.token,
{
}

/// An authorized facade is at rest: whatever it is told, it asks for nothing
/// and its token stays as it is.
pub proof fn lemma_authorized_is_terminal(
    client: GetPocketView,
    event: HandshakeEventView,
    redirect_uri: Option<Seq<char>>,
)
    requires
        client.token.state() == AuthState::Authorized,
    ensures
        client.handshake_action(event, redirect_uri).is_err(),
        client.handshake_token(event) == client.token,
{
}

/// The access token is written once: an event changes it only where there
/// was none, a code was there, and the event brought the token. The token is
/// then the one brought, the facade is authorized, and the answer is to keep
/// that very token.
pub proof fn lemma_access_token_written_once(
    client: GetPocketView,
    event: HandshakeEventView,
    redirect_uri: Option<Seq<char>>,
)
    requires
        client.handshake_token(event).access_token != client.token.access_token,
    ensures
        client.token.state() == AuthState::CodeObtained,
        event matches HandshakeEventView::AccessToken(token) && client.handshake_token(
            event,
        ).access_token == Some(token) && client.handshake_action(event, redirect_uri) == Ok::<
            HandshakeActionView,
            ClientError,
        >(HandshakeActionView::Persist(token)),
        client.handshake_token(event).state() == AuthState::Authorized,
{
}

/// The token is to be kept only at the moment it is written: the answer to
/// an event is `Persist` exactly when that event moves the facade from
/// holding a code to being authorized.
pub proof fn lemma_persist_ends_handshake(
    client: GetPocketView,
    event: HandshakeEventView,
    redirect_uri: Option<Seq<char>>,
)
    ensures
        (client.handshake_action(event, redirect_uri) matches Ok(
            HandshakeActionView::Persist(_),
        )) <==> (client.token.state() == AuthState::CodeObtained && client.handshake_token(
            event,
        ).state() == AuthState::Authorized),
{
}

/// The states are passed in order: an event leaves the state as it is or
/// moves it one step on, never back and never past a step.
pub proof fn lemma_states_in_order(client: GetPocketView, event: HandshakeEventView)
    ensures
        ({
            let before = client.token.state();
            let after = client.handshake_token(event).state();
            ||| after == before
            ||| before == AuthState::Unauthenticated && after == AuthState::CodeObtained
            ||| before == AuthState::CodeObtained && after == AuthState::Authorized
        }),
{
}

/// A handshake that nothing interrupts: started on a facade without
/// credentials and told, in turn, to begin, the code, the approval and the
/// access token, the machine asks for the code, shows the link with that
/// code, asks for the exchange of that code, and ends authorized under the
/// token it was given, which it hands out to be kept.
pub proof fn lemma_handshake_run(
    consumer_key: Seq<char>,
    redirect_uri: Seq<char>,
    code: Seq<char>,
    access_token: Seq<char>,
    target: Option<Seq<char>>,
)
    ensures
        ({
            let start = GetPocket::spec_init(consumer_key, redirect_uri);
            let begun = start.with_token(start.handshake_token(HandshakeEventView::Begin));
            let coded = begun.with_token(begun.handshake_token(HandshakeEventView::Code(code)));
            let approved = coded.with_token(
                coded.handshake_token(HandshakeEventView::Approval(true)),
            );
            let done = approved.with_token(
                approved.handshake_token(HandshakeEventView::AccessToken(access_token)),
            );
            &&& start.handshake_action(HandshakeEventView::Begin, target) == Ok::<
                HandshakeActionView,
                ClientError,
            >(HandshakeActionView::RequestCode { consumer_key, redirect_uri })
            &&& begun.token.state() == AuthState::Unauthenticated
            &&& begun.handshake_action(HandshakeEventView::Code(code), target) == Ok::<
                HandshakeActionView,
                ClientError,
            >(HandshakeActionView::Approve(authorization_url(code, target)))
            &&& coded.token.state() == AuthState::CodeObtained
            &&& coded.handshake_action(HandshakeEventView::Approval(true), target) == Ok::<
                HandshakeActionView,
                ClientError,
            >(HandshakeActionView::Exchange { consumer_key, code })
            &&& approved.token.state() == AuthState::CodeObtained
            &&& approved.handshake_action(HandshakeEventView::AccessToken(access_token), target)
                == Ok::<HandshakeActionView, ClientError>(
                HandshakeActionView::Persist(access_token),
            )
            &&& done.token.state() == AuthState::Authorized
            &&& done.token.access_token == Some(access_token)
            &&& done.consumer_key == consumer_key
            &&& done.headers == start.headers
        }),
{
}

/// Whether a step's answer is the one that the model asks for.
pub open spec fn action_is(
    r: Result<HandshakeAction, ClientError>,
    expected: Result<HandshakeActionView, ClientError>,
) -> bool {
    match r {
        Ok(action) => expected == Ok::<HandshakeActionView, ClientError>(action@),
        Err(err) => expected == Err::<HandshakeActionView, ClientError>(err),
    }
}

impl GetPocket {
    /// The start of a handshake: the request for a code. Only a facade
    /// without any credential starts one.
    pub fn token_code(&self) -> (r: Result<CodeRequest, ClientError>)
        ensures
            r.is_ok() == (self@.token.state() == AuthState::Unauthenticated),
            r matches Ok(request) ==> request.consumer_key@ == self@.consumer_key
                && request.redirect_uri@ == self@.redirect_uri,
            r matches Err(err) ==> err == ClientError::TokenError,
    {
        match self.state() {
            AuthState::Unauthenticated => Ok(
                CodeRequest {
                    consumer_key: self.consumer_key.clone(),
                    redirect_uri: self.redirect_uri.clone(),
                },
            ),
            _ => Err(ClientError::TokenError),
        }
    }

    /// Takes the code that the service issued, stores it, and returns the
    /// link that the user is to open. A facade that already holds a credential
    /// takes no code and stays as it is.
    pub fn get_access_token_manual_open(&mut self, code: &str, redirect_uri: Option<&str>) -> (r:
        Result<String, ClientError>)
        ensures
            r.is_ok() == (old(self)@.token.state() == AuthState::Unauthenticated),
            r matches Ok(url) ==> url@ == authorization_url(code@, redirect_uri.deep_view()),
            r matches Err(err) ==> err == ClientError::TokenError,
            final(self)@ == old(self)@.with_token(
                old(self)@.handshake_token(HandshakeEventView::Code(code@)),
            ),
    {
        match self.state() {
            AuthState::Unauthenticated => {
                let target: &str = match redirect_uri {
                    Some(target) => target,
                    None => "https://getpocket.com",
                };
                let mut url = String::from_str(
                    "https://getpocket.com/auth/authorize?request_token=",
                );
                url.append(code);
                url.append("&redirect_uri=");
                url.append(target);
                self.token.set_code(code);
                Ok(url)
            },
            _ => Err(ClientError::TokenError),
        }
    }

    /// Takes the user's verdict. A declined approval is refused whatever the
    /// state; an approval yields the exchange of the stored code, where one is
    /// stored and no access token is.
    pub fn get_request_access_token(&self, approved: bool) -> (r: Result<TokenRequest, ClientError>)
        ensures
            r.is_ok() == (approved && self@.token.state() == AuthState::CodeObtained),
            r matches Ok(request) ==> request.consumer_key@ == self@.consumer_key && Some(
                request.code@,
            ) == self@.token.code,
            r matches Err(err) ==> err == (if approved {
                ClientError::TokenError
            } else {
                ClientError::InvalidParams("No token was provided from the callback function.")
            }),
    {
        if !approved {
            return Err(
                ClientError::InvalidParams("No token was provided from the callback function."),
            );
        }
        if self.token.access_token.is_some() {
            return Err(ClientError::TokenError);
        }
        match &self.token.code {
            Some(code) => Ok(
                TokenRequest { consumer_key: self.consumer_key.clone(), code: code.clone() },
            ),
            None => Err(ClientError::TokenError),
        }
    }

    /// Takes the access token that the service issued and stores it. The
    /// token comes back for the caller to keep. Only a facade that holds a
    /// code and no access token takes one; any other stays as it is.
    pub fn receive_access_token(&mut self, access_token: &str) -> (r: Result<String, ClientError>)
        ensures
            r.is_ok() == (old(self)@.token.state() == AuthState::CodeObtained),
            r matches Ok(kept) ==> kept@ == access_token@,
            r matches Err(err) ==> err == ClientError::TokenError,
            final(self)@ == old(self)@.with_token(
                old(self)@.handshake_token(HandshakeEventView::AccessToken(access_token@)),
            ),
    {
        match self.state() {
            AuthState::CodeObtained => {
                self.token.set_access_token(access_token);
                Ok(access_token.to_owned())
            },
            _ => Err(ClientError::TokenError),
        }
    }

    /// One step of the handshake: takes an event, moves the token as the
    /// event asks, and says what is to happen next. A refused event changes
    /// nothing.
    pub fn handshake(&mut self, event: HandshakeEvent, redirect_uri: Option<&str>) -> (r: Result<
        HandshakeAction,
        ClientError,
    >)
        ensures
            action_is(r, old(self)@.handshake_action(event@, redirect_uri.deep_view())),
            final(self)@ == old(self)@.with_token(old(self)@.handshake_token(event@)),
    {
        match event {
            HandshakeEvent::Begin => match self.token_code() {
                Ok(request) => Ok(HandshakeAction::RequestCode(request)),
                Err(err) => Err(err),
            },
            HandshakeEvent::Code(code) => match self.get_access_token_manual_open(
                code.as_str(),
                redirect_uri,
            ) {
                Ok(url) => Ok(HandshakeAction::Approve(url)),
                Err(err) => Err(err),
            },
            HandshakeEvent::Approval(approved) => match self.get_request_access_token(approved) {
                Ok(request) => Ok(HandshakeAction::Exchange(request)),
                Err(err) => Err(err),
            },
            HandshakeEvent::AccessToken(token) => match self.receive_access_token(token.as_str()) {
                Ok(kept) => Ok(HandshakeAction::Persist(kept)),
                Err(err) => Err(err),
            },
        }
    }
}

/// The event that a decoded body stands for where a code was asked for: the
/// text under `code`, or `None` where there is none.
pub open spec fn code_event(body: Json) -> Option<HandshakeEventView> {
    match required_text_in(body.member("code"@)) {
        Some(code) => Some(HandshakeEventView::Code(code)),
        None => None,
    }
}

/// The event that a decoded body stands for where an exchange was asked for:
/// the text under `access_token`, or `None` where there is none.
pub open spec fn access_token_event(body: Json) -> Option<HandshakeEventView> {
    match required_text_in(body.member("access_token"@)) {
        Some(token) => Some(HandshakeEventView::AccessToken(token)),
        None => None,
    }
}

/// Whether a decoded event is the one that the model asks for: the same
/// event, or the misfit reported where the model has none.
pub open spec fn event_is(
    r: Result<HandshakeEvent, ClientError>,
    expected: Option<HandshakeEventView>,
) -> bool {
    match r {
        Ok(event) => expected == Some(event@),
        Err(err) => expected.is_none() && err == misfit_error(),
    }
}

impl HandshakeEvent {
    /// Reads the answer to a code request off a decoded body.
    pub fn resolve_code(body: &serde_json::Value) -> (r: Result<HandshakeEvent, ClientError>)
        ensures
            event_is(r, code_event(json_of(*body))),
    {
        match read_required_text(body, "code") {
            Some(code) => Ok(HandshakeEvent::Code(code)),
            None => Err(misfit()),
        }
    }

    /// Reads the answer to a token exchange off a decoded body.
    pub fn resolve_access_token(body: &serde_json::Value) -> (r: Result<
        HandshakeEvent,
        ClientError,
    >)
        ensures
            event_is(r, access_token_event(json_of(*body))),
    {
        match read_required_text(body, "access_token") {
            Some(token) => Ok(HandshakeEvent::AccessToken(token)),
            None => Err(misfit()),
        }
    }

    /// Decodes the body of a successful answer to a code request. Text that
    /// is not JSON fails with the parser's own diagnostic.
    pub fn decode_code(body: &str) -> (r: Result<HandshakeEvent, ClientError>)
        ensures
            match parsed(body@) {
                Ok(json) => event_is(r, code_event(json)),
                Err(diagnostic) => r == Err::<HandshakeEvent, ClientError>(parse_error(diagnostic)),
            },
    {
        match parse_body(body) {
            Ok(value) => Self::resolve_code(&value),
            Err(err) => Err(err),
        }
    }

    /// Decodes the body of a successful answer to a token exchange. Text that
    /// is not JSON fails with the parser's own diagnostic.
    pub fn decode_access_token(body: &str) -> (r: Result<HandshakeEvent, ClientError>)
        ensures
            match parsed(body@) {
                Ok(json) => event_is(r, access_token_event(json)),
                Err(diagnostic) => r == Err::<HandshakeEvent, ClientError>(parse_error(diagnostic)),
            },
    {
        match parse_body(body) {
            Ok(value) => Self::resolve_access_token(&value),
            Err(err) => Err(err),
        }
    }
}

} // verus!
