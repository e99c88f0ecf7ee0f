//! Resuming an authorization flow with the URI that the provider
//! redirected the user to.

use vstd::prelude::*;
use vstd::string::*;

use crate::account::Account;
use crate::endpoint::uri_view;
use crate::error::{caused_error, provider_error, Error, ErrorKind, ErrorView};
use crate::exchange::{
    authorization, is_authorization, lent_secret_view, Grant, Operation, Pending, TokenRequest,
};
use crate::pkce::{verifier_view, PkceCodeVerifier};
use crate::secret::Secret;
use crate::stream::{stream_for, Stream, StreamView, Tls};
use crate::state::{is_state, state_view, State};
use crate::text::{decimal, decimal_text, same_text, text_view};
use crate::uri::{url_parse, Uri, UriView};

verus! {

/// The error codes of the authorization endpoint.
#[derive(Clone, Copy, Debug, PartialEq, Eq, Structural)]
pub enum AuthorizeErrorCode {
    /// The request is malformed.
    InvalidRequest,
    /// The client may not ask for a code this way.
    UnauthorizedClient,
    /// The user or the server denied the request.
    AccessDenied,
    /// The server does not hand out codes this way.
    UnsupportedResponseType,
    /// The requested scope is invalid, unknown or malformed.
    InvalidScope,
    /// The server met an unexpected condition.
    ServerError,
    /// The server is overloaded or down for maintenance.
    TemporarilyUnavailable,
}

/// The code as the provider writes it.
pub open spec fn authorize_error_code(code: AuthorizeErrorCode) -> Seq<char> {
    match code {
        AuthorizeErrorCode::InvalidRequest => "invalid_request"@,
        AuthorizeErrorCode::UnauthorizedClient => "unauthorized_client"@,
        AuthorizeErrorCode::AccessDenied => "access_denied"@,
        AuthorizeErrorCode::UnsupportedResponseType => "unsupported_response_type"@,
        AuthorizeErrorCode::InvalidScope => "invalid_scope"@,
        AuthorizeErrorCode::ServerError => "server_error"@,
        AuthorizeErrorCode::TemporarilyUnavailable => "temporarily_unavailable"@,
    }
}

/// The code that goes by `name`; a name that no code has stands for a
/// malformed request, as an unknown code of the provider does.
pub open spec fn authorize_error_named(name: Seq<char>) -> AuthorizeErrorCode {
    if name == "UnauthorizedClient"@ {
        AuthorizeErrorCode::UnauthorizedClient
    } else if name == "AccessDenied"@ {
        AuthorizeErrorCode::AccessDenied
    } else if name == "UnsupportedResponseType"@ {
        AuthorizeErrorCode::UnsupportedResponseType
    } else if name == "InvalidScope"@ {
        AuthorizeErrorCode::InvalidScope
    } else if name == "ServerError"@ {
        AuthorizeErrorCode::ServerError
    } else if name == "TemporarilyUnavailable"@ {
        AuthorizeErrorCode::TemporarilyUnavailable
    } else {
        AuthorizeErrorCode::InvalidRequest
    }
}

impl AuthorizeErrorCode {
    /// The code as the provider writes it.
    pub fn as_str(&self) -> (code: &'static str)
        ensures
            code@ == authorize_error_code(*self),
    {
        match self {
            AuthorizeErrorCode::InvalidRequest => "invalid_request",
            AuthorizeErrorCode::UnauthorizedClient => "unauthorized_client",
            AuthorizeErrorCode::AccessDenied => "access_denied",
            AuthorizeErrorCode::UnsupportedResponseType => "unsupported_response_type",
            AuthorizeErrorCode::InvalidScope => "invalid_scope",
            AuthorizeErrorCode::ServerError => "server_error",
            AuthorizeErrorCode::TemporarilyUnavailable => "temporarily_unavailable",
        }
    }

    /// The code that goes by `name`.
    pub fn named(name: &str) -> (code: AuthorizeErrorCode)
        ensures
            code == authorize_error_named(name@),
    {
        if same_text(name, "UnauthorizedClient") {
            AuthorizeErrorCode::UnauthorizedClient
        } else if same_text(name, "AccessDenied") {
            AuthorizeErrorCode::AccessDenied
        } else if same_text(name, "UnsupportedResponseType") {
            AuthorizeErrorCode::UnsupportedResponseType
        } else if same_text(name, "InvalidScope") {
            AuthorizeErrorCode::InvalidScope
        } else if same_text(name, "ServerError") {
            AuthorizeErrorCode::ServerError
        } else if same_text(name, "TemporarilyUnavailable") {
            AuthorizeErrorCode::TemporarilyUnavailable
        } else {
            AuthorizeErrorCode::InvalidRequest
        }
    }
}

/// The query of a redirection as `io_oauth` reads it, in plain values.
pub enum AuthorizeParams {
    /// The query holds a code.
    Success {
        code: String,
        /// The bytes of the state, where the query holds a valid one.
        state: Option<Vec<u8>>,
    },
    /// The query holds no code.
    Error {
        /// The name of the error code.
        error: String,
        description: Option<String>,
        uri: Option<String>,
    },
}

/// The mathematical value of an [`AuthorizeParams`].
pub enum AuthorizeParamsView {
    Success { code: Seq<char>, state: Option<Seq<u8>> },
    Error { error: Seq<char>, description: Option<Seq<char>>, uri: Option<Seq<char>> },
}

impl View for AuthorizeParams {
    type V = AuthorizeParamsView;

    open spec fn view(&self) -> AuthorizeParamsView {
        match *self {
            AuthorizeParams::Success { code, state } => AuthorizeParamsView::Success {
                code: code@,
                state: match state {
                    Some(bytes) => Some(bytes@),
                    None => None,
                },
            },
            AuthorizeParams::Error { error, description, uri } => AuthorizeParamsView::Error {
                error: error@,
                description: text_view(description),
                uri: text_view(uri),
            },
        }
    }
}

/// What `io_oauth` reads from the query of the URL parsed from `uri`.
pub uninterp spec fn authorize_params(uri: Seq<char>) -> AuthorizeParamsView;

/// Calls the `From<&Url>` impl of `io_oauth`'s `AuthorizeParams` on the URL
/// parsed from `uri` and moves the fields over, the error code by its
/// `Debug` name. The contract only names the outcome.
#[verifier::external_body]
fn read_authorize_params(uri: &str) -> (params: AuthorizeParams)
    requires
        url_parse(uri@) is Ok,
    ensures
        params@ == authorize_params(uri@),
{
    let url = url::Url::parse(uri).unwrap();
    match io_oauth::v2_0::authorization_code_grant::authorization_response::AuthorizeParams::from(&url) {
        io_oauth::v2_0::authorization_code_grant::authorization_response::AuthorizeParams::Success(params) => AuthorizeParams::Success {
            code: params.code.into_owned(),
            state: params.state.map(|state| state.expose().to_vec()),
        },
        io_oauth::v2_0::authorization_code_grant::authorization_response::AuthorizeParams::Error(params) => AuthorizeParams::Error {
            error: format!("{:?}", params.error),
            description: params.error_description.map(|text| text.into_owned()),
            uri: params.error_uri.map(|uri| uri.to_string()),
        },
    }
}

/// What a redirection says: the user granted access, or not.
pub enum AuthorizationOutcome {
    /// Access was granted: the code to exchange, and the state that came
    /// back with it.
    Success { code: String, state: Option<State> },
    /// Access was not granted.
    Error { error: AuthorizeErrorCode, description: Option<String>, uri: Option<String> },
}

/// The mathematical value of an [`AuthorizationOutcome`].
pub enum AuthorizationOutcomeView {
    Success { code: Seq<char>, state: Option<Seq<u8>> },
    Error { error: AuthorizeErrorCode, description: Option<Seq<char>>, uri: Option<Seq<char>> },
}

impl View for AuthorizationOutcome {
    type V = AuthorizationOutcomeView;

    open spec fn view(&self) -> AuthorizationOutcomeView {
        match *self {
            AuthorizationOutcome::Success { code, state } => AuthorizationOutcomeView::Success {
                code: code@,
                state: state_view(state),
            },
            AuthorizationOutcome::Error {
                error,
                description,
                uri,
            } => AuthorizationOutcomeView::Error {
                error,
                description: text_view(description),
                uri: text_view(uri),
            },
        }
    }
}

/// The state that a query echoes: its bytes where they are visible ASCII
/// characters, and none otherwise.
pub open spec fn echoed_state(state: Option<Seq<u8>>) -> Option<Seq<u8>> {
    match state {
        Some(bytes) => if is_state(bytes) {
            Some(bytes)
        } else {
            None
        },
        None => None,
    }
}

/// The outcome that the query of a redirection stands for.
pub open spec fn outcome_of(params: AuthorizeParamsView) -> AuthorizationOutcomeView {
    match params {
        AuthorizeParamsView::Success { code, state } => AuthorizationOutcomeView::Success {
            code,
            state: echoed_state(state),
        },
        AuthorizeParamsView::Error { error, description, uri } => AuthorizationOutcomeView::Error {
            error: authorize_error_named(error),
            description,
            uri,
        },
    }
}

impl AuthorizationOutcome {
    /// Reads the outcome from the query of a redirection.
    pub fn from_uri(uri: &Uri) -> (outcome: AuthorizationOutcome)
        ensures
            outcome@ == outcome_of(authorize_params(uri@.source)),
    {
        AuthorizationOutcome::from_params(read_authorize_params(uri.source()))
    }

    /// The outcome that the query of a redirection stands for.
    pub fn from_params(params: AuthorizeParams) -> (outcome: AuthorizationOutcome)
        ensures
            outcome@ == outcome_of(params@),
    {
        match params {
            AuthorizeParams::Success { code, state } => {
                let state = match state {
                    Some(bytes) => State::from_bytes(bytes),
                    None => None,
                };
                AuthorizationOutcome::Success { code, state }
            },
            AuthorizeParams::Error { error, description, uri } => AuthorizationOutcome::Error {
                error: AuthorizeErrorCode::named(error.as_str()),
                description,
                uri,
            },
        }
    }
}

/// The decimal codes of `bytes` with `", "` between them.
pub open spec fn listed(bytes: Seq<u8>) -> Seq<char>
    decreases bytes.len(),
{
    if bytes.len() == 0 {
        Seq::empty()
    } else if bytes.len() == 1 {
        decimal(bytes[0] as nat)
    } else {
        listed(bytes.drop_last()) + ", "@ + decimal(bytes.last() as nat)
    }
}

/// How a message shows a state: `None`, or `Some` around the codes of its
/// bytes in square brackets.
pub open spec fn shown_state(state: Option<Seq<u8>>) -> Seq<char> {
    match state {
        Some(bytes) => "Some(["@ + listed(bytes) + "])"@,
        None => "None"@,
    }
}

/// The failure of a redirection that does not belong to the flow. It names
/// both states, which are no secret.
pub open spec fn state_mismatch(sent: Option<Seq<u8>>, echoed: Option<Seq<u8>>) -> ErrorView {
    caused_error(
        ErrorKind::ProtocolViolation,
        "Authorization request and response states do not match"@,
        "Request state "@ + shown_state(sent) + " differs from response state "@ + shown_state(
            echoed,
        ),
    )
}

/// The code that a redirection brings for the flow that sent `sent`.
///
/// A redirection without a code fails with the error code of the provider.
/// One with a code must echo the state of the flow: the same bytes, or none
/// where the flow sent none.
pub open spec fn checked_code(outcome: AuthorizationOutcomeView, sent: Option<Seq<u8>>) -> Result<
    Seq<char>,
    ErrorView,
> {
    match outcome {
        AuthorizationOutcomeView::Error { error, description, uri } => Err(
            provider_error("Authorization error"@, authorize_error_code(error), description, uri),
        ),
        AuthorizationOutcomeView::Success { code, state } => if state == sent {
            Ok(code)
        } else {
            Err(state_mismatch(sent, state))
        },
    }
}

/// A redirection with a code is accepted exactly where it echoes the state
/// of the flow: both absent, or both the same bytes.
pub proof fn lemma_state_check(code: Seq<char>, sent: Option<Seq<u8>>, echoed: Option<Seq<u8>>)
    ensures
        checked_code(AuthorizationOutcomeView::Success { code, state: echoed }, sent) is Ok
            <==> echoed == sent,
        echoed == sent ==> checked_code(
            AuthorizationOutcomeView::Success { code, state: echoed },
            sent,
        ) == Ok::<Seq<char>, ErrorView>(code),
        echoed != sent ==> checked_code(
            AuthorizationOutcomeView::Success { code, state: echoed },
            sent,
        ) == Err::<Seq<char>, ErrorView>(state_mismatch(sent, echoed)),
{
}

fn list_bytes(bytes: &[u8]) -> (text: String)
    ensures
        text@ == listed(bytes@),
{
    let mut text = String::new();
    let mut i: usize = 0;
    while i < bytes.len()
        invariant
            i <= bytes.len(),
            text@ == listed(bytes@.take(i as int)),
        decreases bytes.len() - i,
    {
        let ghost before = bytes@.take(i as int);
        let ghost after = bytes@.take(i + 1);
        assert(after.drop_last() =~= before);
        if i > 0 {
            text.append(", ");
        }
        let digits = decimal_text(bytes[i] as u64);
        text.append(digits.as_str());
        i = i + 1;
    }
    assert(bytes@.take(bytes.len() as int) =~= bytes@);
    text
}

fn show_state(state: &Option<State>) -> (text: String)
    ensures
        text@ == shown_state(state_view(*state)),
{
    match state {
        Some(state) => {
            let mut text = String::from_str("Some([");
            let codes = list_bytes(state.expose());
            text.append(codes.as_str());
            text.append("])");
            text
        },
        None => String::from_str("None"),
    }
}

fn same_state(a: &Option<State>, b: &Option<State>) -> (same: bool)
    ensures
        same == (state_view(*a) == state_view(*b)),
{
    match (a, b) {
        (Some(a), Some(b)) => a.matches(b),
        (None, None) => true,
        _ => false,
    }
}

impl AuthorizationOutcome {
    /// The code that the redirection brings for the flow that sent `sent`.
    pub fn check(self, sent: &Option<State>) -> (code: Result<String, Error>)
        ensures
            match checked_code(self@, state_view(*sent)) {
                Ok(expected) => code matches Ok(c) && c@ == expected,
                Err(error) => code matches Err(e) && e@ == error,
            },
    {
        match self {
            AuthorizationOutcome::Error { error, description, uri } => Err(
                Error::provider("Authorization error", error.as_str(), &description, &uri),
            ),
            AuthorizationOutcome::Success { code, state } => {
                if same_state(&state, sent) {
                    Ok(code)
                } else {
                    let mut cause = String::from_str("Request state ");
                    let request = show_state(sent);
                    cause.append(request.as_str());
                    cause.append(" differs from response state ");
                    let response = show_state(&state);
                    cause.append(response.as_str());
                    Err(
                        Error::with_cause(
                            ErrorKind::ProtocolViolation,
                            String::from_str(
                                "Authorization request and response states do not match",
                            ),
                            cause,
                        ),
                    )
                }
            },
        }
    }
}

/// The command that resumes a flow.
pub struct ResumeAuthorization {
    /// The URI that the provider redirected the user to.
    pub redirected_uri: Uri,
    /// The state that the flow sent.
    pub state: Option<State>,
    /// The PKCE verifier of the flow.
    pub pkce: Option<PkceCodeVerifier>,
}

/// A flow whose redirection was accepted: the exchange that is to follow.
pub struct ResumeExchange {
    stream: Stream,
    host: String,
    needs_secret: bool,
    code: String,
    pkce: Option<PkceCodeVerifier>,
}

/// The mathematical value of a [`ResumeExchange`].
pub struct ResumeExchangeView {
    /// The stream to open towards the token endpoint.
    pub stream: StreamView,
    /// The value of the `Host` header.
    pub host: Seq<char>,
    /// Whether the client secret of the account has to be resolved for the
    /// request.
    pub needs_secret: bool,
    /// The authorization code that the redirection brought.
    pub code: Seq<char>,
    /// The PKCE verifier of the flow.
    pub code_verifier: Option<Seq<u8>>,
}

impl View for ResumeExchange {
    type V = ResumeExchangeView;

    closed spec fn view(&self) -> ResumeExchangeView {
        ResumeExchangeView {
            stream: self.stream@,
            host: self.host@,
            needs_secret: self.needs_secret,
            code: self.code@,
            code_verifier: verifier_view(self.pkce),
        }
    }
}

/// What resuming a flow begins with: the code out of the redirection, and
/// the `Host` header value and the stream for the token endpoint.
///
/// The redirection is judged first. Where it is refused, the failure is
/// that of [`checked_code`] and no stream is asked for.
pub open spec fn resumed(
    params: AuthorizeParamsView,
    sent: Option<Seq<u8>>,
    token_endpoint: UriView,
    tls: Tls,
) -> Result<(Seq<char>, Seq<char>, StreamView), ErrorView> {
    match checked_code(outcome_of(params), sent) {
        Err(error) => Err(error),
        Ok(code) => match stream_for(token_endpoint, tls) {
            Err(error) => Err(error),
            Ok((host, stream)) => Ok((code, host, stream)),
        },
    }
}

/// A redirection without a code asks for no stream: resuming fails with the
/// error of the provider, whatever the states, the token endpoint and the
/// TLS backend are.
pub proof fn lemma_refused_redirection_fails(
    error: Seq<char>,
    description: Option<Seq<char>>,
    uri: Option<Seq<char>>,
    sent: Option<Seq<u8>>,
    token_endpoint: UriView,
    tls: Tls,
)
    ensures
        resumed(AuthorizeParamsView::Error { error, description, uri }, sent, token_endpoint, tls)
            == Err::<(Seq<char>, Seq<char>, StreamView), ErrorView>(
            provider_error(
                "Authorization error"@,
                authorize_error_code(authorize_error_named(error)),
                description,
                uri,
            ),
        ),
{
}

/// A redirection with a code that echoes another state than the flow sent
/// asks for no stream either.
pub proof fn lemma_foreign_redirection_fails(
    code: Seq<char>,
    sent: Option<Seq<u8>>,
    echoed: Option<Seq<u8>>,
    token_endpoint: UriView,
    tls: Tls,
)
    requires
        echoed_state(echoed) != sent,
    ensures
        resumed(AuthorizeParamsView::Success { code, state: echoed }, sent, token_endpoint, tls)
            == Err::<(Seq<char>, Seq<char>, StreamView), ErrorView>(
            state_mismatch(sent, echoed_state(echoed)),
        ),
{
}

/// The body of the request that exchanges `code`.
pub open spec fn is_code_grant(
    grant: Grant,
    code: Seq<char>,
    redirection: Option<UriView>,
    client_id: Seq<char>,
    verifier: Option<Seq<u8>>,
) -> bool {
    match grant {
        Grant::AuthorizationCode { code: c, redirect_uri, client_id: id, code_verifier } => {
            &&& c@ == code
            &&& text_view(redirect_uri) == match redirection {
                Some(uri) => Some(uri.text),
                None => None,
            }
            &&& id@ == client_id
            &&& verifier_view(code_verifier) == verifier
        },
        Grant::RefreshToken { .. } => false,
    }
}

impl ResumeAuthorization {
    /// Judges the redirection and says what to connect to.
    ///
    /// Fails, before anything is asked of the network, where the provider
    /// reported an error, where the state of the redirection is not the
    /// state of the flow, and where the token endpoint cannot be reached
    /// with the configuration of the account.
    pub fn execute(self, account: &Account) -> (next: Result<ResumeExchange, Error>)
        ensures
            match resumed(
                authorize_params(self.redirected_uri@.source),
                state_view(self.state),
                account.endpoints.token@,
                account.tls,
            ) {
                Err(error) => next matches Err(e) && e@ == error,
                Ok((code, host, stream)) => {
                    &&& next matches Ok(exchange)
                    &&& exchange@ == (ResumeExchangeView {
                        stream,
                        host,
                        needs_secret: account.client_secret,
                        code,
                        code_verifier: verifier_view(self.pkce),
                    })
                },
            },
    {
        let outcome = AuthorizationOutcome::from_uri(&self.redirected_uri);
        let code = match outcome.check(&self.state) {
            Ok(code) => code,
            Err(error) => {
                return Err(error);
            },
        };
        let (host, stream) = match Stream::connect(&account.endpoints.token, &account.tls) {
            Ok(plan) => plan,
            Err(error) => {
                return Err(error);
            },
        };
        Ok(
            ResumeExchange {
                stream,
                host,
                needs_secret: account.client_secret,
                code,
                pkce: self.pkce,
            },
        )
    }
}

impl ResumeExchange {
    /// The stream to open towards the token endpoint.
    pub fn stream(&self) -> (stream: &Stream)
        ensures
            stream@ == self@.stream,
    {
        &self.stream
    }

    /// The value of the `Host` header.
    pub fn host(&self) -> (host: &str)
        ensures
            host@ == self@.host,
    {
        self.host.as_str()
    }

    /// Whether the client secret of the account has to be resolved for the
    /// request.
    pub fn needs_secret(&self) -> (needed: bool)
        ensures
            needed == self@.needs_secret,
    {
        self.needs_secret
    }

    /// The request to send once the stream is open.
    ///
    /// `secret` is the client secret of the account, resolved by the
    /// caller; with one, the request authenticates the client.
    pub fn request(self, account: &Account, secret: Option<&Secret>) -> (sent: (
        TokenRequest,
        Pending,
    ))
        ensures
            sent.1.operation() == Operation::Issue,
            ({
                let request = sent.0;
                &&& request.path@ == account.endpoints.token@.path
                &&& request.host@ == self@.host
                &&& is_authorization(
                    request.authorization,
                    account.client_id@,
                    lent_secret_view(secret),
                )
                &&& is_code_grant(
                    request.grant,
                    self@.code,
                    uri_view(account.endpoints.redirection),
                    account.client_id@,
                    self@.code_verifier,
                )
            }),
    {
        let redirect_uri = match &account.endpoints.redirection {
            Some(uri) => Some(String::from_str(uri.as_str())),
            None => None,
        };
        let request = TokenRequest {
            path: String::from_str(account.endpoints.token.path()),
            host: self.host,
            authorization: authorization(account.client_id.as_str(), secret),
            grant: Grant::AuthorizationCode {
                code: self.code,
                redirect_uri,
                client_id: account.client_id.clone(),
                code_verifier: self.pkce,
            },
        };
        (request, Pending::new(Operation::Issue))
    }
}

/// Reads the URI of a redirection.
pub fn uri_parser(url: &str) -> (parsed: Result<Uri, String>)
    ensures
        match url_parse(url@) {
            Ok(_) => parsed matches Ok(uri) && uri@ == crate::uri::uri_of(url@),
            Err(message) => parsed matches Err(m) && m@ == message,
        },
{
    Uri::parse(url)
}

} // verus!
