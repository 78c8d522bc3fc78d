use getpocket::client::AuthState;
use getpocket::client::ClientError;
use getpocket::client::Token;
use getpocket::decode::MISFIT;
use getpocket::handshake::CodeRequest;
use getpocket::handshake::HandshakeAction;
use getpocket::handshake::HandshakeEvent;
use getpocket::handshake::TokenRequest;
use getpocket::handshake::CODE_ENDPOINT;
use getpocket::handshake::TOKEN_ENDPOINT;
use getpocket::wire::WireValue::Text;
use getpocket::GetPocket;

fn fresh() -> GetPocket {
    GetPocket::init(String::from("my-app"), String::from("https://example.com/return"))
}

fn with_code() -> GetPocket {
    let mut client = fresh();
    client.handshake(HandshakeEvent::Code(String::from("abc-123")), None).unwrap();
    client
}

fn declined(r: Result<HandshakeAction, ClientError>) -> bool {
    matches!(
        r,
        Err(ClientError::InvalidParams("No token was provided from the callback function."))
    )
}

#[test]
fn endpoints_of_the_handshake() {
    assert_eq!(CODE_ENDPOINT, "https://getpocket.com/v3/oauth/request");
    assert_eq!(TOKEN_ENDPOINT, "https://getpocket.com/v3/oauth/authorize");
}

#[test]
fn token_starts_empty() {
    let token = Token::new();
    assert_eq!(token.code, None);
    assert_eq!(token.access_token, None);
    assert_eq!(token.state(), AuthState::Unauthenticated);
    assert_eq!(Token::default(), token);
}

#[test]
fn token_setters_write_one_field_each() {
    let mut token = Token::new();
    token.set_code("code-1");
    assert_eq!(token.code.as_deref(), Some("code-1"));
    assert_eq!(token.access_token, None);
    assert_eq!(token.state(), AuthState::CodeObtained);
    token.set_access_token("token-1");
    assert_eq!(token.code.as_deref(), Some("code-1"));
    assert_eq!(token.access_token.as_deref(), Some("token-1"));
    assert_eq!(token.state(), AuthState::Authorized);
}

#[test]
fn access_token_alone_means_authorized() {
    let mut token = Token::new();
    token.set_access_token("token-1");
    assert_eq!(token.code, None);
    assert_eq!(token.state(), AuthState::Authorized);
}

#[test]
fn init_is_unauthenticated_with_the_fixed_headers() {
    let client = fresh();
    assert_eq!(client.consumer_key, "my-app");
    assert_eq!(client.redirect_uri, "https://example.com/return");
    assert_eq!(client.token, Token::new());
    assert_eq!(client.state(), AuthState::Unauthenticated);
    assert_eq!(
        client.reqwester.headers,
        vec![
            ("Content-Type", "application/json; charset=UTF-8"),
            ("X-Accept", "application/json"),
        ]
    );
    assert_eq!(GetPocket::init_reqwester(), client.reqwester);
}

#[test]
fn new_is_authorized_with_the_fixed_headers() {
    let client =
        GetPocket::new(String::from("my-app"), String::from("uri"), String::from("token-9"))
            .unwrap();
    assert_eq!(client.consumer_key, "my-app");
    assert_eq!(client.redirect_uri, "uri");
    assert_eq!(client.token.code, None);
    assert_eq!(client.token.access_token.as_deref(), Some("token-9"));
    assert_eq!(client.state(), AuthState::Authorized);
    assert_eq!(client.reqwester, GetPocket::init_reqwester());
}

#[test]
fn full_handshake_walks_the_three_states() {
    let mut client = fresh();

    let first = client.handshake(HandshakeEvent::Begin, None).unwrap();
    assert_eq!(
        first,
        HandshakeAction::RequestCode(CodeRequest {
            consumer_key: String::from("my-app"),
            redirect_uri: String::from("https://example.com/return"),
        })
    );
    assert_eq!(client.state(), AuthState::Unauthenticated);

    let second = client.handshake(HandshakeEvent::Code(String::from("abc-123")), None).unwrap();
    assert_eq!(
        second,
        HandshakeAction::Approve(String::from(
            "https://getpocket.com/auth/authorize?request_token=abc-123&redirect_uri=https://getpocket.com"
        ))
    );
    assert_eq!(client.state(), AuthState::CodeObtained);
    assert_eq!(client.token.code.as_deref(), Some("abc-123"));

    let third = client.handshake(HandshakeEvent::Approval(true), None).unwrap();
    assert_eq!(
        third,
        HandshakeAction::Exchange(TokenRequest {
            consumer_key: String::from("my-app"),
            code: String::from("abc-123"),
        })
    );
    assert_eq!(client.state(), AuthState::CodeObtained);

    let last = client
        .handshake(HandshakeEvent::AccessToken(String::from("token-xyz")), None)
        .unwrap();
    assert_eq!(last, HandshakeAction::Persist(String::from("token-xyz")));
    assert_eq!(client.state(), AuthState::Authorized);
    assert_eq!(client.token.access_token.as_deref(), Some("token-xyz"));
    assert_eq!(client.list_of_items().unwrap().access_token, "token-xyz");
}

#[test]
fn caller_supplied_redirect_goes_into_the_link() {
    let mut client = fresh();
    let url = client.get_access_token_manual_open("c0de", Some("myapp://done")).unwrap();
    assert_eq!(
        url,
        "https://getpocket.com/auth/authorize?request_token=c0de&redirect_uri=myapp://done"
    );
    let mut other = fresh();
    let action = other
        .handshake(HandshakeEvent::Code(String::from("c0de")), Some("myapp://done"))
        .unwrap();
    assert_eq!(action, HandshakeAction::Approve(url));
}

#[test]
fn declined_approval_is_invalid_params_and_asks_for_no_exchange() {
    let mut client = with_code();
    let before = client.token.clone();
    assert!(declined(client.handshake(HandshakeEvent::Approval(false), None)));
    assert_eq!(client.token, before);
    assert_eq!(client.state(), AuthState::CodeObtained);
    assert!(matches!(
        client.get_request_access_token(false),
        Err(ClientError::InvalidParams("No token was provided from the callback function."))
    ));
}

#[test]
fn declined_approval_is_invalid_params_in_every_state() {
    let mut unauthenticated = fresh();
    assert!(declined(unauthenticated.handshake(HandshakeEvent::Approval(false), None)));
    assert_eq!(unauthenticated.token, Token::new());
    let mut authorized =
        GetPocket::new(String::from("k"), String::from("u"), String::from("t")).unwrap();
    assert!(declined(authorized.handshake(HandshakeEvent::Approval(false), None)));
    assert_eq!(authorized.token.access_token.as_deref(), Some("t"));
}

#[test]
fn approval_without_a_code_is_a_token_error() {
    let mut client = fresh();
    assert!(matches!(
        client.handshake(HandshakeEvent::Approval(true), None),
        Err(ClientError::TokenError)
    ));
    assert!(matches!(client.get_request_access_token(true), Err(ClientError::TokenError)));
    assert_eq!(client.token, Token::new());
}

#[test]
fn access_token_without_a_code_is_refused() {
    let mut client = fresh();
    assert!(matches!(
        client.handshake(HandshakeEvent::AccessToken(String::from("t")), None),
        Err(ClientError::TokenError)
    ));
    assert!(matches!(client.receive_access_token("t"), Err(ClientError::TokenError)));
    assert_eq!(client.token, Token::new());
}

#[test]
fn a_second_code_is_refused_and_the_first_stays() {
    let mut client = with_code();
    assert!(matches!(
        client.handshake(HandshakeEvent::Code(String::from("other")), None),
        Err(ClientError::TokenError)
    ));
    assert_eq!(client.token.code.as_deref(), Some("abc-123"));
    assert!(matches!(
        client.handshake(HandshakeEvent::Begin, None),
        Err(ClientError::TokenError)
    ));
    assert!(matches!(client.token_code(), Err(ClientError::TokenError)));
}

#[test]
fn authorized_facade_refuses_every_event() {
    let mut client =
        GetPocket::new(String::from("k"), String::from("u"), String::from("t")).unwrap();
    let before = client.token.clone();
    assert!(matches!(client.token_code(), Err(ClientError::TokenError)));
    assert!(matches!(
        client.handshake(HandshakeEvent::Begin, None),
        Err(ClientError::TokenError)
    ));
    assert!(matches!(
        client.handshake(HandshakeEvent::Code(String::from("c")), None),
        Err(ClientError::TokenError)
    ));
    assert!(matches!(
        client.handshake(HandshakeEvent::Approval(true), None),
        Err(ClientError::TokenError)
    ));
    assert!(matches!(
        client.handshake(HandshakeEvent::AccessToken(String::from("other")), None),
        Err(ClientError::TokenError)
    ));
    assert_eq!(client.token, before);
    assert_eq!(client.state(), AuthState::Authorized);
}

#[test]
fn access_token_is_written_once() {
    let mut client = with_code();
    assert_eq!(client.receive_access_token("first").unwrap(), "first");
    assert!(matches!(client.receive_access_token("second"), Err(ClientError::TokenError)));
    assert_eq!(client.token.access_token.as_deref(), Some("first"));
}

#[test]
fn handshake_payloads() {
    let client = fresh();
    let request = client.token_code().unwrap();
    assert_eq!(
        request.fields(),
        vec![
            ("consumer_key", Text("my-app")),
            ("redirect_uri", Text("https://example.com/return")),
        ]
    );
    let exchange = with_code().get_request_access_token(true).unwrap();
    assert_eq!(
        exchange.fields(),
        vec![("consumer_key", Text("my-app")), ("code", Text("abc-123"))]
    );
}

#[test]
fn code_answer_becomes_the_code_event() {
    assert_eq!(
        HandshakeEvent::decode_code(r#"{"code":"dcba4321-dcba-4321-dcba-4321dc"}"#).unwrap(),
        HandshakeEvent::Code(String::from("dcba4321-dcba-4321-dcba-4321dc"))
    );
    assert_eq!(
        HandshakeEvent::decode_code(r#"{"code":"","state":null}"#).unwrap(),
        HandshakeEvent::Code(String::new())
    );
}

#[test]
fn token_answer_becomes_the_access_token_event() {
    assert_eq!(
        HandshakeEvent::decode_access_token(
            r#"{"access_token":"5678defg-5678-defg-5678-defg56","username":"pocketuser"}"#
        )
        .unwrap(),
        HandshakeEvent::AccessToken(String::from("5678defg-5678-defg-5678-defg56"))
    );
}

#[test]
fn handshake_answers_of_another_shape_are_decode_failures() {
    let misfit = |r: Result<HandshakeEvent, ClientError>| match r {
        Err(ClientError::JsonError(err)) => format!("{}", err),
        other => panic!("expected a decode failure, got {:?}", other),
    };
    for text in [r#"{}"#, r#"{"code":1}"#, r#"{"code":null}"#, r#"{"access_token":"t"}"#, r#"["c"]"#]
    {
        assert_eq!(misfit(HandshakeEvent::decode_code(text)), MISFIT);
    }
    for text in [r#"{}"#, r#"{"access_token":false}"#, r#"{"code":"c"}"#] {
        assert_eq!(misfit(HandshakeEvent::decode_access_token(text)), MISFIT);
    }
    assert_eq!(
        misfit(HandshakeEvent::decode_code("code=abc")),
        format!("{}", serde_json::from_str::<serde_json::Value>("code=abc").unwrap_err())
    );
    assert_eq!(
        misfit(HandshakeEvent::decode_access_token("")),
        "EOF while parsing a value at line 1 column 0"
    );
}

#[test]
fn decoded_answers_drive_the_handshake() {
    let mut client = fresh();
    client.handshake(HandshakeEvent::Begin, None).unwrap();
    let code = HandshakeEvent::decode_code(r#"{"code":"abc-123"}"#).unwrap();
    client.handshake(code, None).unwrap();
    client.handshake(HandshakeEvent::Approval(true), None).unwrap();
    let token = HandshakeEvent::decode_access_token(r#"{"access_token":"token-xyz"}"#).unwrap();
    assert_eq!(
        client.handshake(token, None).unwrap(),
        HandshakeAction::Persist(String::from("token-xyz"))
    );
    let resolved: serde_json::Value = serde_json::from_str(r#"{"code":"c"}"#).unwrap();
    assert_eq!(
        HandshakeEvent::resolve_code(&resolved).unwrap(),
        HandshakeEvent::Code(String::from("c"))
    );
    let exchanged: serde_json::Value = serde_json::from_str(r#"{"access_token":"t"}"#).unwrap();
    assert_eq!(
        HandshakeEvent::resolve_access_token(&exchanged).unwrap(),
        HandshakeEvent::AccessToken(String::from("t"))
    );
}
