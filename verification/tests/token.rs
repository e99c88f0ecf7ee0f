use ortie::access_token::{Timestamp, TokenError, TokenErrorCode, TokenSuccess};
use ortie::account::Account;
use ortie::endpoint::Endpoints;
use ortie::error::ErrorKind;
use ortie::exchange::{Answer, Exchanged, Grant, Operation};
use ortie::hook::{Hook, Hooks};
use ortie::notify::NotifyHook;
use ortie::secret::Secret;
use ortie::storage::{Backend, CommandOutput, ReadReply, Reply, Storage, Storages, WriteReply};
use ortie::stream::Tls;
use ortie::token::inspect::{InspectTokenCommand, Report};
use ortie::token::refresh::RefreshTokenCommand;
use ortie::token::show::{AccessToken, ShowTokenCommand, Shown};
use ortie::uri::Uri;

fn uri(text: &str) -> Uri {
    Uri::parse(text).unwrap()
}

fn account(token_endpoint: &str, read: Storage, auto_refresh: bool) -> Account {
    Account {
        default: true,
        client_id: "client".to_owned(),
        client_secret: true,
        endpoints: Endpoints {
            authorization: uri("https://provider.example/authorize"),
            token: uri(token_endpoint),
            redirection: Some(uri("http://localhost:8080/cb")),
        },
        tls: Tls::RustlsRing,
        scopes: vec!["mail".to_owned(), "calendar".to_owned()],
        pkce: true,
        auto_refresh,
        storage: Storages { read, write: Storage::Command },
        on_issue_access_token: Hooks {
            success: Hook { command: true, notify: None },
            error: Hook { command: false, notify: None },
        },
        on_refresh_access_token: Hooks {
            success: Hook {
                command: false,
                notify: Some(NotifyHook { summary: "refreshed".to_owned(), body: "$TOKEN_TYPE".to_owned() }),
            },
            error: Hook { command: true, notify: None },
        },
    }
}

fn token(access: &str, expires_in: Option<u64>, refresh_token: Option<&str>) -> TokenSuccess {
    TokenSuccess {
        access_token: Secret::new(access.to_owned()),
        token_type: "Bearer".to_owned(),
        expires_in,
        refresh_token: refresh_token.map(|token| Secret::new(token.to_owned())),
        scope: None,
        issued_at: Timestamp::from_secs(1_000),
    }
}

fn json_of(token: &TokenSuccess) -> Vec<u8> {
    let storages = Storages { read: Storage::Undefined, write: Storage::Command };
    storages.write(token).unwrap().request().json.clone().into_bytes()
}

fn printed(token: &TokenSuccess) -> ReadReply {
    ReadReply::Command(Reply::Done(CommandOutput { success: true, stdout: json_of(token), stderr: Vec::new() }))
}

fn exited(success: bool) -> WriteReply {
    WriteReply::Command(Reply::Done(CommandOutput { success, stdout: Vec::new(), stderr: b"no".to_vec() }))
}

#[test]
fn show_without_storage_fails_at_once() {
    let account = account("https://provider.example/token", Storage::Undefined, true);
    let err = ShowTokenCommand { auto_refresh: true }.execute(&account).err().unwrap();
    assert_eq!(err.kind, ErrorKind::Configuration);
    assert!(err.message.contains("storage not defined"));
    assert_eq!(err.message, "Cannot read token: storage not defined");
}

#[test]
fn inspect_and_refresh_without_storage_fail_at_once() {
    let account = account("https://provider.example/token", Storage::Undefined, true);
    let err = InspectTokenCommand.execute(&account).err().unwrap();
    assert_eq!(err.message, "Cannot read token: storage not defined");
    let err = RefreshTokenCommand.execute(&account).err().unwrap();
    assert_eq!(err.message, "Cannot read token: storage not defined");
}

#[test]
fn expired_token_is_refreshed_once_and_the_new_token_is_shown() {
    let account = account("https://provider.example/token", Storage::Command, true);
    let showing = ShowTokenCommand { auto_refresh: false }.execute(&account).unwrap();
    assert_eq!(showing.backend(), Backend::Command);
    let stale = token("stale", Some(0), Some("refresh"));
    let refresh_token = match showing.read(printed(&stale), &Timestamp::from_secs(1_000)).unwrap() {
        Shown::Refresh(refresh_token) => refresh_token,
        Shown::Token(_) => panic!("an expired token is refreshed first"),
    };
    assert_eq!(refresh_token.expose(), "refresh");

    let exchange = RefreshTokenCommand::refresh(&account, refresh_token).unwrap();
    let (_request, pending) = exchange.request(&account, None);
    let fresh = token("fresh", Some(3600), Some("rotated"));
    let granted = match pending.answered(Exchanged::Granted(fresh), &Timestamp::from_secs(1_000)) {
        Answer::Granted(granted) => granted,
        _ => panic!("the provider sent a refresh token"),
    };
    let writing = granted.store(&account).unwrap();
    let stored = granted.stored(writing, exited(true)).unwrap();
    let shown = AccessToken::of(stored.token());
    assert_eq!(shown.to_text(), "fresh");
    assert_eq!(shown.access_token, "fresh");
}

#[test]
fn token_with_lifetime_left_is_shown_as_it_is() {
    let account = account("https://provider.example/token", Storage::Command, true);
    let showing = ShowTokenCommand { auto_refresh: true }.execute(&account).unwrap();
    let stored = token("stored", Some(60), Some("refresh"));
    match showing.read(printed(&stored), &Timestamp::from_secs(1_059)).unwrap() {
        Shown::Token(shown) => assert_eq!(shown.to_text(), "stored"),
        Shown::Refresh(_) => panic!("a second is left"),
    }
    let showing = ShowTokenCommand { auto_refresh: true }.execute(&account).unwrap();
    match showing.read(printed(&stored), &Timestamp::from_secs(1_060)).unwrap() {
        Shown::Refresh(refresh_token) => assert_eq!(refresh_token.expose(), "refresh"),
        Shown::Token(_) => panic!("nothing is left"),
    }
}

#[test]
fn show_decides_on_switch_refresh_token_and_lifetime() {
    let cases = [
        (true, Some(0), Some("r"), true),
        (false, Some(0), Some("r"), false),
        (true, Some(1), Some("r"), false),
        (true, None, Some("r"), false),
        (true, Some(0), None, false),
        (false, None, None, false),
    ];
    for (auto_refresh, expires_in, refresh_token, refreshes) in cases {
        match ShowTokenCommand::shown(auto_refresh, token("stored", expires_in, refresh_token)) {
            Shown::Refresh(found) => {
                assert!(refreshes);
                assert_eq!(found.expose(), "r");
            }
            Shown::Token(shown) => {
                assert!(!refreshes);
                assert_eq!(shown.access_token, "stored");
            }
        }
    }
}

#[test]
fn command_flag_or_account_switch_refreshing_on() {
    let stale = token("stale", Some(0), Some("r"));
    for (flag, configured, refreshes) in
        [(false, false, false), (true, false, true), (false, true, true), (true, true, true)]
    {
        let account = account("https://provider.example/token", Storage::Keyring, configured);
        let showing = ShowTokenCommand { auto_refresh: flag }.execute(&account).unwrap();
        assert_eq!(showing.backend(), Backend::Keyring);
        let json = String::from_utf8(json_of(&stale)).unwrap();
        let reply = ReadReply::Keyring(Reply::Done(Secret::new(json)));
        let shown = showing.read(reply, &Timestamp::from_secs(1_000)).unwrap();
        assert_eq!(matches!(shown, Shown::Refresh(_)), refreshes);
    }
}

#[test]
fn access_token_is_disclosed_from_its_wrapper() {
    let secret = Secret::new("the token".to_owned());
    assert_eq!(AccessToken::disclose(&secret).to_text(), "the token");
}

#[test]
fn readers_fail_where_the_reply_holds_no_record() {
    let account = account("https://provider.example/token", Storage::Command, true);
    let garbage = || {
        ReadReply::Command(Reply::Done(CommandOutput {
            success: true,
            stdout: b"[]".to_vec(),
            stderr: Vec::new(),
        }))
    };
    let now = Timestamp::from_secs(0);
    let message = "Parse access token from command error";
    let showing = ShowTokenCommand { auto_refresh: true }.execute(&account).unwrap();
    assert_eq!(showing.read(garbage(), &now).err().unwrap().message, message);
    let inspecting = InspectTokenCommand.execute(&account).unwrap();
    assert_eq!(inspecting.read(garbage(), &now).err().unwrap().message, message);
    let refreshing = RefreshTokenCommand.execute(&account).unwrap();
    assert_eq!(refreshing.read(garbage(), &now).err().unwrap().message, message);
}

#[test]
fn show_fails_as_the_read_fails() {
    let account = account("https://provider.example/token", Storage::Command, true);
    let showing = ShowTokenCommand { auto_refresh: true }.execute(&account).unwrap();
    let reply = ReadReply::Command(Reply::Io("cannot spawn".to_owned()));
    let err = showing.read(reply, &Timestamp::from_secs(0)).err().unwrap();
    assert_eq!(err.message, "cannot spawn");
}

#[test]
fn refresh_needs_a_refresh_token() {
    let err = RefreshTokenCommand::refresh_token(token("a", Some(1), None)).err().unwrap();
    assert_eq!(err.message, "Missing refresh token");
    assert_eq!(err.cause, None);
    let found = RefreshTokenCommand::refresh_token(token("a", Some(1), Some("r"))).unwrap();
    assert_eq!(found.expose(), "r");

    let account = account("https://provider.example/token", Storage::Command, false);
    let refreshing = RefreshTokenCommand.execute(&account).unwrap();
    assert_eq!(refreshing.backend(), Backend::Command);
    let err = refreshing.read(printed(&token("a", None, None)), &Timestamp::from_secs(0)).err().unwrap();
    assert_eq!(err.message, "Missing refresh token");
    let refreshing = RefreshTokenCommand.execute(&account).unwrap();
    let found = refreshing.read(printed(&token("a", None, Some("r"))), &Timestamp::from_secs(0)).unwrap();
    assert_eq!(found.expose(), "r");
}

#[test]
fn empty_refresh_token_counts_as_missing() {
    let err = RefreshTokenCommand::refresh_token(token("a", Some(1), Some(""))).err().unwrap();
    assert_eq!(err.kind, ErrorKind::ProtocolViolation);
    assert_eq!(err.message, "Missing refresh token");
}

#[test]
fn granted_token_is_stamped_when_the_answer_is_read() {
    let account = account("https://provider.example/token", Storage::Command, false);
    let exchange = RefreshTokenCommand::refresh(&account, Secret::new("old".to_owned())).unwrap();
    let (_request, pending) = exchange.request(&account, None);
    let now = Timestamp::new(2_000_000_000, 7).unwrap();
    let granted = match pending.answered(Exchanged::Granted(token("fresh", Some(60), Some("new"))), &now) {
        Answer::Granted(granted) => granted,
        _ => panic!("the provider sent a refresh token"),
    };
    assert_eq!(granted.token().issued_at.secs(), 2_000_000_000);
    assert_eq!(granted.token().issued_at.subsec_nanos(), 7);
    assert_eq!(granted.token().expires_in, Some(60));
    let stamped = token("a", None, None).stamp(&now);
    assert_eq!((stamped.issued_at.secs(), stamped.access_token.expose()), (2_000_000_000, "a"));
}

#[test]
fn refresh_plans_the_exchange() {
    let account = account("https://provider.example:8443/oauth/token", Storage::Command, false);
    let exchange = RefreshTokenCommand::refresh(&account, Secret::new("refresh".to_owned())).unwrap();
    assert_eq!(exchange.uri(), "https://provider.example:8443");
    assert_eq!(exchange.host(), "provider.example:8443");
    assert_eq!(exchange.tls(), Tls::RustlsRing);
    assert!(exchange.needs_secret());
    let secret = Secret::new("s3cret".to_owned());
    let (request, _pending) = exchange.request(&account, Some(&secret));
    assert_eq!(request.path, "/oauth/token");
    assert_eq!(request.host, "provider.example:8443");
    assert_eq!(request.authorization.unwrap().expose(), "Basic Y2xpZW50OnMzY3JldA==");
    match request.grant {
        Grant::RefreshToken { client_id, refresh_token, scopes } => {
            assert_eq!(client_id, "client");
            assert_eq!(refresh_token.expose(), "refresh");
            assert_eq!(scopes, vec!["mail".to_owned(), "calendar".to_owned()]);
        }
        Grant::AuthorizationCode { .. } => panic!("a refresh token is exchanged"),
    }
}

#[test]
fn refresh_uses_the_default_port_of_the_scheme() {
    let account = account("http://provider.example/token", Storage::Command, false);
    let exchange = RefreshTokenCommand::refresh(&account, Secret::new("r".to_owned())).unwrap();
    assert_eq!(exchange.uri(), "http://provider.example:80");
    assert_eq!(exchange.host(), "provider.example:80");
}

#[test]
fn refresh_needs_host_and_port() {
    let without_host = account("unix:/run/foo.socket", Storage::Command, false);
    let err = RefreshTokenCommand::refresh(&without_host, Secret::new("r".to_owned())).err().unwrap();
    assert_eq!(err.kind, ErrorKind::Configuration);
    assert_eq!(err.message, "Missing token endpoint host name in unix:/run/foo.socket");
    let without_port = account("foo://example.com/x", Storage::Command, false);
    let err = RefreshTokenCommand::refresh(&without_port, Secret::new("r".to_owned())).err().unwrap();
    assert_eq!(err.message, "Missing token endpoint port in foo://example.com/x");
}

#[test]
fn refresh_needs_an_endpoint_that_makes_a_uri() {
    let odd = account("foo://ex%41mple:1/x", Storage::Command, false);
    let err = RefreshTokenCommand::refresh(&odd, Secret::new("r".to_owned())).err().unwrap();
    assert_eq!(err.kind, ErrorKind::Configuration);
    assert_eq!(err.message, "Invalid token URI using foo, ex%41mple and 1");
    assert_eq!(err.cause, None);
}

#[test]
fn refresh_keeps_the_stored_refresh_token_when_the_provider_sends_none() {
    let account = account("https://provider.example/token", Storage::Command, false);
    let exchange = RefreshTokenCommand::refresh(&account, Secret::new("old".to_owned())).unwrap();
    let (_request, pending) = exchange.request(&account, None);
    let incomplete = match pending.answered(Exchanged::Granted(token("fresh", Some(60), None)), &Timestamp::from_secs(1_000)) {
        Answer::Incomplete(incomplete) => incomplete,
        _ => panic!("the provider sent no refresh token"),
    };
    let reading = incomplete.read(&account).unwrap();
    let stored = token("stale", Some(0), Some("old"));
    let granted = incomplete.stored(reading, printed(&stored), &Timestamp::from_secs(2_000)).unwrap();
    assert_eq!(granted.token().refresh_token.as_ref().unwrap().expose(), "old");
    assert_eq!(granted.token().access_token.expose(), "fresh");
    assert_eq!(granted.token().expires_in, Some(60));
    let json = String::from_utf8(json_of(granted.token())).unwrap();
    assert!(json.contains("\"refresh_token\":\"old\""));
    assert_eq!(granted.store(&account).unwrap().request().json, json);
}

#[test]
fn refresh_takes_the_new_refresh_token_when_the_provider_sends_one() {
    let account = account("https://provider.example/token", Storage::Command, false);
    let exchange = RefreshTokenCommand::refresh(&account, Secret::new("old".to_owned())).unwrap();
    let (_request, pending) = exchange.request(&account, None);
    let granted = match pending.answered(Exchanged::Granted(token("fresh", Some(60), Some("new"))), &Timestamp::from_secs(1_000)) {
        Answer::Granted(granted) => granted,
        _ => panic!("the provider sent a refresh token"),
    };
    assert_eq!(granted.token().refresh_token.as_ref().unwrap().expose(), "new");
}

#[test]
fn or_refresh_token_prefers_the_fresh_one() {
    let kept = token("a", None, None).or_refresh_token(Some(Secret::new("old".to_owned())));
    assert_eq!(kept.refresh_token.unwrap().expose(), "old");
    let fresh = token("a", None, Some("new")).or_refresh_token(Some(Secret::new("old".to_owned())));
    assert_eq!(fresh.refresh_token.unwrap().expose(), "new");
    let none = token("a", None, None).or_refresh_token(None);
    assert!(none.refresh_token.is_none());
    let fresh = token("a", Some(3), Some("new")).or_refresh_token(None);
    assert_eq!(fresh.refresh_token.unwrap().expose(), "new");
    assert_eq!(fresh.expires_in, Some(3));
}

#[test]
fn incomplete_refresh_fails_as_the_read_fails() {
    let account = account("https://provider.example/token", Storage::Command, false);
    let exchange = RefreshTokenCommand::refresh(&account, Secret::new("old".to_owned())).unwrap();
    let (_request, pending) = exchange.request(&account, None);
    let incomplete = match pending.answered(Exchanged::Granted(token("fresh", None, None)), &Timestamp::from_secs(1_000)) {
        Answer::Incomplete(incomplete) => incomplete,
        _ => panic!("the provider sent no refresh token"),
    };
    let reading = incomplete.read(&account).unwrap();
    let reply = ReadReply::Command(Reply::Done(CommandOutput {
        success: false,
        stdout: Vec::new(),
        stderr: b"gone".to_vec(),
    }));
    let err = incomplete.stored(reading, reply, &Timestamp::from_secs(0)).err().unwrap();
    assert_eq!(err.message, "Read access token via command error");
    assert_eq!(err.cause.as_deref(), Some("gone"));
}

#[test]
fn issued_token_without_refresh_token_is_stored_as_it_is() {
    let account = account("https://provider.example/token", Storage::Command, false);
    let command = ortie::auth::resume::ResumeAuthorization {
        redirected_uri: uri("http://localhost:8080/cb?code=c"),
        state: None,
        pkce: None,
    };
    let (_request, pending) = command.execute(&account).unwrap().request(&account, None);
    let granted = match pending.answered(Exchanged::Granted(token("issued", Some(3599), None)), &Timestamp::from_secs(1_000)) {
        Answer::Granted(granted) => granted,
        _ => panic!("an issued token is stored at once"),
    };
    let writing = granted.store(&account).unwrap();
    assert_eq!(writing.request().backend, Backend::Command);
    let stored = granted.stored(writing, exited(true)).unwrap();
    assert_eq!(stored.message(), "Access token successfully issued (expires in 1h)");
    let plan = stored.hooks(&account, &None, &Vec::new());
    assert_eq!(plan.command.unwrap().envs.len(), 3);
    assert!(plan.notification.is_none());
    assert!(stored.into_token().refresh_token.is_none());
}

#[test]
fn refreshed_token_runs_the_refresh_hooks_and_message() {
    let account = account("https://provider.example/token", Storage::Command, false);
    let exchange = RefreshTokenCommand::refresh(&account, Secret::new("old".to_owned())).unwrap();
    let (_request, pending) = exchange.request(&account, None);
    let granted = match pending.answered(Exchanged::Granted(token("fresh", None, Some("new"))), &Timestamp::from_secs(1_000)) {
        Answer::Granted(granted) => granted,
        _ => panic!("the provider sent a refresh token"),
    };
    let writing = granted.store(&account).unwrap();
    let stored = granted.stored(writing, exited(true)).unwrap();
    assert_eq!(stored.message(), "Access token successfully refreshed (unknown expiry)");
    let plan = stored.hooks(&account, &None, &Vec::new());
    assert!(plan.command.is_none());
    let shown = plan.notification.unwrap();
    assert_eq!((shown.summary.as_str(), shown.body.as_str()), ("refreshed", "Bearer"));
}

#[test]
fn failed_write_fails_the_command_before_any_hook() {
    let account = account("https://provider.example/token", Storage::Command, false);
    let exchange = RefreshTokenCommand::refresh(&account, Secret::new("old".to_owned())).unwrap();
    let (_request, pending) = exchange.request(&account, None);
    let granted = match pending.answered(Exchanged::Granted(token("fresh", None, Some("new"))), &Timestamp::from_secs(1_000)) {
        Answer::Granted(granted) => granted,
        _ => panic!("the provider sent a refresh token"),
    };
    let writing = granted.store(&account).unwrap();
    let err = granted.stored(writing, exited(false)).err().unwrap();
    assert_eq!(err.message, "Write access token via command error");
    assert_eq!(err.cause.as_deref(), Some("no"));
}

#[test]
fn denied_exchange_runs_the_error_hook_and_fails() {
    let account = account("https://provider.example/token", Storage::Command, false);
    let exchange = RefreshTokenCommand::refresh(&account, Secret::new("old".to_owned())).unwrap();
    let (_request, pending) = exchange.request(&account, None);
    let denied = TokenError {
        error: TokenErrorCode::InvalidGrant,
        error_description: Some("revoked".to_owned()),
        error_uri: None,
    };
    let refusal = match pending.answered(Exchanged::Denied(denied), &Timestamp::from_secs(1_000)) {
        Answer::Refused(refusal) => refusal,
        _ => panic!("the provider refused"),
    };
    assert_eq!(refusal.operation, Operation::Refresh);
    assert_eq!(refusal.error.kind, ErrorKind::Provider);
    assert_eq!(refusal.error.message, "Refresh access token error (code invalid_grant)");
    assert_eq!(refusal.error.cause.as_deref(), Some("revoked"));
    let plan = refusal.hooks(&account, &None, &Vec::new()).unwrap();
    assert_eq!(
        plan.command.unwrap().envs,
        vec![
            ("ERROR".to_owned(), "InvalidGrant".to_owned()),
            ("ERROR_DESCRIPTION".to_owned(), "revoked".to_owned()),
        ]
    );
}

#[test]
fn failed_or_malformed_exchange_runs_no_hook() {
    let failed = Exchanged::Failed("connection reset".to_owned()).settle(Operation::Issue, &Timestamp::from_secs(1_000)).err().unwrap();
    assert_eq!(failed.error.kind, ErrorKind::Transport);
    assert_eq!(failed.error.message, "connection reset");
    assert!(failed.denied.is_none());
    let account = account("https://provider.example/token", Storage::Command, false);
    assert!(failed.hooks(&account, &None, &Vec::new()).is_none());

    let malformed = Exchanged::Malformed("EOF".to_owned()).settle(Operation::Issue, &Timestamp::from_secs(1_000)).err().unwrap();
    assert_eq!(malformed.error.kind, ErrorKind::ProtocolViolation);
    assert_eq!(malformed.error.message, "Parse access token response error");
    assert_eq!(malformed.error.cause.as_deref(), Some("EOF"));
    let malformed = Exchanged::Malformed("EOF".to_owned()).settle(Operation::Refresh, &Timestamp::from_secs(1_000)).err().unwrap();
    assert_eq!(malformed.error.message, "Refresh OAuth 2.0 access token error");

    let denied = TokenError { error: TokenErrorCode::InvalidClient, error_description: None, error_uri: None };
    let denied = Exchanged::Denied(denied).settle(Operation::Issue, &Timestamp::from_secs(1_000)).err().unwrap();
    assert_eq!(denied.error.message, "Issue access token error (code invalid_client)");
    assert!(denied.hooks(&account, &None, &Vec::new()).unwrap().command.is_none());
}

#[test]
fn success_messages_tell_the_expiry() {
    let cases = [
        (Some(0), "Access token successfully issued (expires in 1s)"),
        (Some(59), "Access token successfully issued (expires in 1m)"),
        (Some(3600), "Access token successfully issued (expires in 1h 1s)"),
        (Some(86_399), "Access token successfully issued (expires in 1day)"),
        (None, "Access token successfully issued (unknown expiry)"),
    ];
    for (expires_in, message) in cases {
        assert_eq!(ortie::exchange::report_success("Access token successfully issued", expires_in), message);
    }
    let longest = ortie::exchange::report_success("x", Some(u64::MAX));
    assert_eq!(longest, ortie::exchange::report_success("x", Some(u64::MAX - 1)));
}

#[test]
fn report_tells_what_is_known() {
    let report = Report {
        token: TokenSuccess {
            access_token: Secret::new("secret access".to_owned()),
            token_type: "BEARER".to_owned(),
            expires_in: Some(3_661),
            refresh_token: Some(Secret::new("secret refresh".to_owned())),
            scope: Some("mail calendar".to_owned()),
            issued_at: Timestamp::from_secs(1_000),
        },
    };
    let text = report.to_text(&Timestamp::new(1_090, 900_000_000).unwrap());
    assert_eq!(
        text,
        "Token type: bearer\nIssued: 1m 30s ago\nExpires in: 1h 1m 1s\nWith refresh token: true\nWith scope: mail calendar"
    );
    assert!(!text.contains("secret"));
}

#[test]
fn report_on_a_bare_token() {
    let report = Report { token: token("a", None, None) };
    assert_eq!(
        report.to_text(&Timestamp::from_secs(1_000)),
        "Token type: bearer\nIssued: 0s ago\nExpired: unknown\nWith refresh token: false"
    );
    assert_eq!(
        report.to_text(&Timestamp::from_secs(999)),
        "Token type: bearer\nExpired: unknown\nWith refresh token: false"
    );
    let report = Report { token: token("a", Some(0), None) };
    assert_eq!(
        report.to_text(&Timestamp::from_secs(999)),
        "Token type: bearer\nExpired: true\nWith refresh token: false"
    );
}

#[test]
fn inspect_reports_on_the_stored_record() {
    let account = account("https://provider.example/token", Storage::Command, false);
    let inspecting = InspectTokenCommand.execute(&account).unwrap();
    assert_eq!(inspecting.backend(), Backend::Command);
    let report = inspecting.read(printed(&token("a", Some(100), None)), &Timestamp::from_secs(1_040)).unwrap();
    assert_eq!(report.token.expires_in, Some(60));
    assert_eq!(
        report.to_text(&Timestamp::from_secs(1_040)),
        "Token type: bearer\nIssued: 40s ago\nExpires in: 1m\nWith refresh token: false"
    );
}
