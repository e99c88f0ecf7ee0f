use ortie::account::Account;
use ortie::auth::get::{
    url_parser, AuthorizationUri, GetAuthorizationCommand, Started, REDIRECTION_RESPONSE,
};
use ortie::endpoint::Endpoints;
use ortie::error::ErrorKind;
use ortie::hook::Hooks;
use ortie::pkce::PkceCodeVerifier;
use ortie::state::State;
use ortie::storage::{Storage, Storages};
use ortie::stream::Tls;
use ortie::uri::Uri;

fn uri(text: &str) -> Uri {
    Uri::parse(text).unwrap()
}

fn account(pkce: bool, redirection: Option<&str>, scopes: &[&str]) -> Account {
    Account {
        default: false,
        client_id: "my client".to_owned(),
        client_secret: false,
        endpoints: Endpoints {
            authorization: uri("https://provider.example/authorize?drop=me"),
            token: uri("https://provider.example/token"),
            redirection: redirection.map(uri),
        },
        tls: Tls::RustlsRing,
        scopes: scopes.iter().map(|scope| scope.to_string()).collect(),
        pkce,
        auto_refresh: false,
        storage: Storages { read: Storage::Undefined, write: Storage::Undefined },
        on_issue_access_token: Hooks::default(),
        on_refresh_access_token: Hooks::default(),
    }
}

fn query_of(authorization_uri: &str) -> Vec<(String, String)> {
    let url = url::Url::parse(authorization_uri).unwrap();
    url.query_pairs().map(|(key, value)| (key.into_owned(), value.into_owned())).collect()
}

fn value_of<'a>(query: &'a [(String, String)], key: &str) -> Option<&'a str> {
    query.iter().find(|(name, _)| name == key).map(|(_, value)| value.as_str())
}

#[test]
fn non_interactive_flow_with_pkce_shows_the_verifier_of_the_challenge() {
    let account = account(true, Some("http://localhost:8080/cb"), &["mail"]);
    let started = GetAuthorizationCommand.execute(&account, false, false);
    let request = match started {
        Started::Emit(request) => request,
        Started::Listen(_) => panic!("a flow without a terminal does not listen"),
    };
    assert!(!request.interactive);
    let verifier = request.pkce_code_verifier.as_ref().expect("the account uses PKCE");
    let query = query_of(&request.authorization_uri);
    assert_eq!(value_of(&query, "code_challenge"), Some(verifier.challenge().as_str()));
    assert_eq!(value_of(&query, "code_challenge_method"), Some("S256"));
    assert_eq!(value_of(&query, "state"), Some(request.state.to_text().as_str()));
    assert!(request.to_text().contains(&format!(" - pkce: {}\n", verifier.to_text())));
}

#[test]
fn emitted_state_is_the_state_of_the_query() {
    let account = account(false, None, &["mail"]);
    let request = match GetAuthorizationCommand.execute(&account, false, true) {
        Started::Emit(request) => request,
        Started::Listen(_) => panic!("structured output does not listen"),
    };
    let state = request.state.to_text();
    assert_eq!(state.len(), 43);
    assert!(state.bytes().all(|byte| byte.is_ascii_alphanumeric() || byte == b'-' || byte == b'_'));
    let query = query_of(&request.authorization_uri);
    assert_eq!(query.iter().filter(|(key, _)| key == "state").count(), 1);
    assert_eq!(value_of(&query, "state"), Some(state.as_str()));
}

#[test]
fn challenge_appears_once_and_the_verifier_never() {
    let account = account(true, Some("http://localhost:8080/cb"), &["mail", "calendar"]);
    let request = match GetAuthorizationCommand.execute(&account, false, false) {
        Started::Emit(request) => request,
        Started::Listen(_) => panic!("a flow without a terminal does not listen"),
    };
    let verifier = request.pkce_code_verifier.as_ref().unwrap();
    let query = query_of(&request.authorization_uri);
    assert_eq!(query.iter().filter(|(key, _)| key == "code_challenge").count(), 1);
    assert_eq!(query.iter().filter(|(key, _)| key == "code_challenge_method").count(), 1);
    assert_eq!(value_of(&query, "code_challenge"), Some(verifier.challenge().as_str()));
    assert!(!request.authorization_uri.contains(verifier.to_text().as_str()));
    let keys: Vec<&str> = query.iter().map(|(key, _)| key.as_str()).collect();
    assert_eq!(
        keys,
        ["response_type", "client_id", "state", "redirect_uri", "scope", "code_challenge", "code_challenge_method"]
    );
}

#[test]
fn duplicate_scopes_are_listed_once() {
    let account = account(false, None, &["mail", "mail", "mail"]);
    let request = match GetAuthorizationCommand.execute(&account, false, false) {
        Started::Emit(request) => request,
        Started::Listen(_) => panic!("a flow without a terminal does not listen"),
    };
    let query = query_of(&request.authorization_uri);
    assert_eq!(value_of(&query, "scope"), Some("mail"));
}

#[test]
fn authorization_uri_carries_the_request() {
    let account = account(false, Some("http://localhost:8080/cb"), &["mail"]);
    let state = State::from_raw(b"raw state");
    let started = GetAuthorizationCommand::start(&account, state, None, false, true);
    let request = match started {
        Started::Emit(request) => request,
        Started::Listen(_) => panic!("structured output does not listen"),
    };
    assert_eq!(
        request.authorization_uri,
        "https://provider.example/authorize?response_type=code&client_id=my+client&state=cmF3IHN0YXRl&redirect_uri=http%3A%2F%2Flocalhost%3A8080%2Fcb&scope=mail"
    );
    assert!(request.pkce_code_verifier.is_none());
    assert_eq!(request.state.to_raw().as_deref(), Some(&b"raw state"[..]));
}

#[test]
fn authorization_uri_without_redirection_and_scopes() {
    let account = account(false, None, &[]);
    let state = State::parse("plain state").unwrap();
    let verifier = PkceCodeVerifier::parse("dBjftJeZ4CVP-mB92K27uhbUJU1p1r_wW1gFWFOEjXk").unwrap();
    let started = GetAuthorizationCommand::start(&account, state, Some(verifier), false, false);
    let request = match started {
        Started::Emit(request) => request,
        Started::Listen(_) => panic!("a flow without a terminal does not listen"),
    };
    assert_eq!(
        request.authorization_uri,
        "https://provider.example/authorize?response_type=code&client_id=my+client&state=plain+state&code_challenge=E9Melhoa2OwvFrEMTJguCHaoeK1t8URWbuGJSstw-cM&code_challenge_method=S256"
    );
}

#[test]
fn scopes_are_space_joined_in_any_order() {
    let account = account(false, None, &["mail", "calendar"]);
    let started = GetAuthorizationCommand.execute(&account, false, false);
    let request = match started {
        Started::Emit(request) => request,
        Started::Listen(_) => panic!("a flow without a terminal does not listen"),
    };
    let query = query_of(&request.authorization_uri);
    let scope = value_of(&query, "scope").unwrap();
    assert!(scope == "mail calendar" || scope == "calendar mail");
    assert_eq!(value_of(&query, "drop"), None);
    assert_eq!(value_of(&query, "client_id"), Some("my client"));
    assert_eq!(value_of(&query, "response_type"), Some("code"));
}

#[test]
fn mode_decides_between_emitting_and_listening() {
    let account = account(false, None, &[]);
    for (interactive, json, listens) in
        [(false, false, false), (false, true, false), (true, true, false), (true, false, true)]
    {
        let started = GetAuthorizationCommand.execute(&account, interactive, json);
        match started {
            Started::Emit(request) => {
                assert!(!listens);
                assert_eq!(request.interactive, interactive);
            }
            Started::Listen(listening) => {
                assert!(listens);
                assert!(listening.authorization_uri().interactive);
            }
        }
    }
}

#[test]
fn listener_waits_where_redirections_arrive() {
    let started = GetAuthorizationCommand.execute(&account(false, None, &[]), true, false);
    match started {
        Started::Listen(listening) => {
            assert_eq!(listening.scheme(), "http");
            assert_eq!(listening.host(), "127.0.0.1");
            assert_eq!(listening.port(), 80);
        }
        Started::Emit(_) => panic!("an interactive flow listens"),
    }
    let account = account(false, Some("https://localhost:8443/cb"), &[]);
    match GetAuthorizationCommand.execute(&account, true, false) {
        Started::Listen(listening) => {
            assert_eq!(listening.scheme(), "https");
            assert_eq!(listening.host(), "localhost");
            assert_eq!(listening.port(), 8443);
        }
        Started::Emit(_) => panic!("an interactive flow listens"),
    }
}

#[test]
fn redirection_is_resumed_with_the_state_and_verifier_of_the_flow() {
    let account = account(true, Some("http://localhost:8080/cb"), &[]);
    let listening = match GetAuthorizationCommand.execute(&account, true, false) {
        Started::Listen(listening) => listening,
        Started::Emit(_) => panic!("an interactive flow listens"),
    };
    let state = listening.authorization_uri().state.duplicate();
    let verifier = listening.authorization_uri().pkce_code_verifier.as_ref().unwrap().duplicate();
    let line = format!("GET /cb?code=abc&state={} HTTP/1.1\r\n", state.to_text());
    let command = listening.redirected(&line).unwrap();
    assert_eq!(
        command.redirected_uri.as_str(),
        format!("http://localhost:8080/cb?code=abc&state={}", state.to_text())
    );
    assert!(command.state.as_ref().unwrap().matches(&state));
    assert_eq!(command.pkce.as_ref().unwrap().expose(), verifier.expose());
    assert!(command.execute(&account).is_ok());
}

#[test]
fn malformed_request_line_is_fatal() {
    let account = account(false, None, &[]);
    for line in ["", "GET", "GET\r\n", "   "] {
        let listening = match GetAuthorizationCommand.execute(&account, true, false) {
            Started::Listen(listening) => listening,
            Started::Emit(_) => panic!("an interactive flow listens"),
        };
        let err = listening.redirected(line).err().unwrap();
        assert_eq!(err.kind, ErrorKind::ProtocolViolation);
        assert_eq!(err.message, "Missing path in redirection request");
    }
}

#[test]
fn request_line_that_makes_no_uri_is_fatal() {
    let account = account(false, None, &[]);
    let listening = match GetAuthorizationCommand.execute(&account, true, false) {
        Started::Listen(listening) => listening,
        Started::Emit(_) => panic!("an interactive flow listens"),
    };
    let err = listening.redirected("GET x HTTP/1.1").err().unwrap();
    assert_eq!(err.kind, ErrorKind::ProtocolViolation);
    assert_eq!(err.message, "Invalid redirection URI");
    assert_eq!(err.cause.as_deref(), Some("invalid port number"));
}

#[test]
fn authorization_text_for_a_link() {
    let request = AuthorizationUri {
        authorization_uri: "https://p.example/a?x=y".to_owned(),
        state: State::parse("the-state").unwrap(),
        pkce_code_verifier: None,
        interactive: false,
    };
    assert_eq!(
        request.to_text(),
        "Created authorization request with:\n - state: the-state\n\nClick on the link to start the authorization process: https://p.example/a?x=y"
    );
}

#[test]
fn authorization_text_for_the_browser() {
    let request = AuthorizationUri {
        authorization_uri: "https://p.example/a?x=y".to_owned(),
        state: State::parse("the-state").unwrap(),
        pkce_code_verifier: Some(PkceCodeVerifier::parse("the-verifier").unwrap()),
        interactive: true,
    };
    assert_eq!(
        request.to_text(),
        "Created authorization request with:\n - state: the-state\n - pkce: the-verifier\n\nSending authorization request to your browser…"
    );
}

#[test]
fn redirection_response_is_fixed() {
    assert_eq!(REDIRECTION_RESPONSE, "HTTP/1.0 200 OK\r\n\r\nAuthorization succeeded!");
}

#[test]
fn url_parser_reads_urls() {
    assert_eq!(url_parser("https://p.example").unwrap().as_str(), "https://p.example/");
    assert_eq!(url_parser("//p.example").err().unwrap(), "relative URL without a base");
}
