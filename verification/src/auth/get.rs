//! Starting an authorization flow.

use io_oauth::v2_0::authorization_code_grant as grant;
use serde::Deserialize;
use std::borrow::Cow;
use vstd::prelude::*;
use vstd::string::*;

use crate::account::Account;
use crate::auth::resume::ResumeAuthorization;
use crate::encoding::{base64_url, is_base64_url_text};
use crate::endpoint::{redirection_host_of, redirection_port_of, redirection_scheme_of, uri_view};
use crate::error::{caused_error, plain_error, Error, ErrorKind, ErrorView};
use crate::pkce::{
    challenge_view, parsed_verifier, pkce_challenge, verifier_text, verifier_view,
    PkceCodeChallenge, PkceCodeVerifier,
};
use crate::state::{is_state, parsed_state, state_text, state_view, State};
use crate::text::{copy_texts, decimal, decimal_text, second_word, second_word_of, text_view};
use crate::uri::{uri_of, url_parse, url_with_query, Uri, UriView};

verus! {

/// Starts a new authorization code grant.
pub struct GetAuthorizationCommand;

/// An authorization request that was made, as it is shown to the user.
pub struct AuthorizationUri {
    /// The URI at which the user grants access.
    pub authorization_uri: String,
    /// The state of the flow.
    pub state: State,
    /// The PKCE verifier of the flow, where the account uses PKCE.
    pub pkce_code_verifier: Option<PkceCodeVerifier>,
    /// Whether the flow goes on in this process.
    pub interactive: bool,
}

/// The text that shows an authorization request.
///
/// It names the state and the verifier, which a later resumption needs. An
/// interactive flow then announces the browser, any other gives the link.
pub open spec fn authorization_text(
    uri: Seq<char>,
    state: Seq<u8>,
    verifier: Option<Seq<u8>>,
    interactive: bool,
) -> Seq<char> {
    "Created authorization request with:\n - state: "@ + state_text(state) + "\n"@ + (match verifier {
        Some(verifier) => " - pkce: "@ + verifier_text(verifier) + "\n"@,
        None => Seq::empty(),
    }) + "\n"@ + (if interactive {
        "Sending authorization request to your browser…"@
    } else {
        "Click on the link to start the authorization process: "@ + uri
    })
}

impl AuthorizationUri {
    /// The text that shows the request.
    pub fn to_text(&self) -> (text: String)
        ensures
            text@ == authorization_text(
                self.authorization_uri@,
                self.state@,
                verifier_view(self.pkce_code_verifier),
                self.interactive,
            ),
    {
        let mut text = String::from_str("Created authorization request with:\n - state: ");
        let state = self.state.to_text();
        text.append(state.as_str());
        text.append("\n");
        match &self.pkce_code_verifier {
            Some(verifier) => {
                text.append(" - pkce: ");
                let verifier = verifier.to_text();
                text.append(verifier.as_str());
                text.append("\n");
            },
            None => {
            },
        }
        text.append("\n");
        if self.interactive {
            text.append("Sending authorization request to your browser…");
        } else {
            text.append("Click on the link to start the authorization process: ");
            text.append(self.authorization_uri.as_str());
        }
        text
    }
}

/// The text form of a state, as structured output gives it.
pub fn serialize_state(state: &State) -> (text: String)
    ensures
        text@ == state_text(state@),
{
    state.to_text()
}

/// The text form of an optional verifier, as structured output gives it.
pub fn serialize_pkce_code_verifier(verifier: &Option<PkceCodeVerifier>) -> (text: Option<String>)
    ensures
        match *verifier {
            Some(verifier) => text matches Some(t) && t@ == verifier_text(verifier@),
            None => text is None,
        },
{
    match verifier {
        Some(verifier) => Some(verifier.to_text()),
        None => None,
    }
}

/// Reads a URL from the command line.
pub fn url_parser(url: &str) -> (parsed: Result<Uri, String>)
    ensures
        match url_parse(url@) {
            Ok(_) => parsed matches Ok(uri) && uri@ == uri_of(url@),
            Err(message) => parsed matches Err(m) && m@ == message,
        },
{
    Uri::parse(url)
}

/// Reads a state from the command line.
pub fn state_parser(state: &str) -> (parsed: Result<State, String>)
    ensures
        match parsed_state(state@) {
            Ok(bytes) => parsed matches Ok(s) && s@ == bytes,
            Err(message) => parsed matches Err(m) && m@ == message,
        },
{
    State::parse(state)
}

/// Reads a PKCE code verifier from the command line.
pub fn pkce_code_verifier_parser(verifier: &str) -> (parsed: Result<PkceCodeVerifier, String>)
    ensures
        match parsed_verifier(verifier@) {
            Ok(bytes) => parsed matches Ok(v) && v@ == bytes,
            Err(message) => parsed matches Err(m) && m@ == message,
        },
{
    PkceCodeVerifier::parse(verifier)
}

/// The parameters of an authorization request.
pub struct AuthorizationRequestParams {
    /// The client identifier.
    pub client_id: String,
    /// Where the provider sends the user back to.
    pub redirect_uri: Option<String>,
    /// The scopes to ask for. Their order does not matter.
    pub scope: Vec<String>,
    /// The state of the flow.
    pub state: State,
    /// The PKCE challenge of the flow, where the account uses PKCE. The
    /// request shows the challenge and never the verifier.
    pub pkce_code_challenge: Option<PkceCodeChallenge>,
}

/// Whether `params` are the parameters of the request of `account` for the
/// flow with the given state and verifier.
pub open spec fn is_request_params(
    params: AuthorizationRequestParams,
    account: Account,
    state: Seq<u8>,
    verifier: Option<Seq<u8>>,
) -> bool {
    &&& params.client_id@ == account.client_id@
    &&& text_view(params.redirect_uri) == match account.endpoints.redirection {
        Some(uri) => Some(uri@.text),
        None => None,
    }
    &&& params.scope.deep_view() == account.scopes.deep_view()
    &&& params.state@ == state
    &&& challenge_view(params.pkce_code_challenge) == verifier
}

/// What `url::form_urlencoded::Serializer` writes when the pairs `pairs`
/// are appended, in their order, to an empty text.
pub uninterp spec fn form_urlencoded(pairs: Seq<(Seq<char>, Seq<char>)>) -> Seq<char>;

/// The texts with one space between each two of them.
pub open spec fn spaced(texts: Seq<Seq<char>>) -> Seq<char>
    decreases texts.len(),
{
    if texts.len() == 0 {
        Seq::empty()
    } else if texts.len() == 1 {
        texts[0]
    } else {
        spaced(texts.drop_last()) + " "@ + texts.last()
    }
}

/// Whether `order` lists each of the scopes `scopes` once: it holds the
/// same scopes, and none of them twice.
pub open spec fn lists_each_once(order: Seq<Seq<char>>, scopes: Seq<Seq<char>>) -> bool {
    &&& order.no_duplicates()
    &&& forall|scope: Seq<char>| order.contains(scope) <==> scopes.contains(scope)
}

/// The challenge that a request shows for a verifier.
pub open spec fn challenge_of(verifier: Option<Seq<u8>>) -> Option<Seq<char>> {
    match verifier {
        Some(verifier) => Some(pkce_challenge(verifier)),
        None => None,
    }
}

/// The pairs of an authorization request, in the order of the query: the
/// response type `code`, the client identifier and the state; then the
/// redirect URI where there is one, the scopes in the order `order` with
/// spaces between them where there are any, and the challenge with the
/// method `S256` where there is one.
///
/// The request shows the challenge: no pair depends on the verifier in any
/// other way.
pub open spec fn request_pairs(
    client_id: Seq<char>,
    state: Seq<char>,
    redirect_uri: Option<Seq<char>>,
    order: Seq<Seq<char>>,
    challenge: Option<Seq<char>>,
) -> Seq<(Seq<char>, Seq<char>)> {
    seq![("response_type"@, "code"@), ("client_id"@, client_id), ("state"@, state)] + (
    match redirect_uri {
        Some(uri) => seq![("redirect_uri"@, uri)],
        None => seq![],
    }) + (if order.len() > 0 {
        seq![("scope"@, spaced(order))]
    } else {
        seq![]
    }) + (match challenge {
        Some(challenge) => seq![
            ("code_challenge"@, challenge),
            ("code_challenge_method"@, "S256"@),
        ],
        None => seq![],
    })
}

/// The pairs of the request with the parameters `params`, when the query
/// lists the scopes in the order `order`.
pub open spec fn params_pairs(params: AuthorizationRequestParams, order: Seq<Seq<char>>) -> Seq<
    (Seq<char>, Seq<char>),
> {
    request_pairs(
        params.client_id@,
        state_text(params.state@),
        text_view(params.redirect_uri),
        order,
        challenge_of(challenge_view(params.pkce_code_challenge)),
    )
}

/// The pairs of the request of `account` for the flow with the given state
/// and verifier, when the query lists the scopes in the order `order`.
pub open spec fn account_pairs(
    account: Account,
    state: Seq<u8>,
    verifier: Option<Seq<u8>>,
    order: Seq<Seq<char>>,
) -> Seq<(Seq<char>, Seq<char>)> {
    request_pairs(
        account.client_id@,
        state_text(state),
        match account.endpoints.redirection {
            Some(uri) => Some(uri@.text),
            None => None,
        },
        order,
        challenge_of(verifier),
    )
}

/// Whether `query` is a query of the request with the parameters `params`:
/// the form encoding of its pairs, with the scopes in some order that lists
/// each of them once.
pub open spec fn is_query_of(query: Seq<char>, params: AuthorizationRequestParams) -> bool {
    exists|order: Seq<Seq<char>>|
        #[trigger] lists_each_once(order, params.scope.deep_view()) && query == form_urlencoded(
            params_pairs(params, order),
        )
}

/// Calls `AuthorizationRequestParams::to_form_url_encoded_string` of
/// `io_oauth` on the given parameters, with the method `S256` for the
/// challenge. It appends the pairs of the request to a form serializer of
/// the `url` crate. The scopes go through a hash set first, so the query
/// lists each of them once, in an order that is left open.
#[verifier::external_body]
fn form_url_encoded(params: &AuthorizationRequestParams) -> (query: String)
    ensures
        is_query_of(query@, *params),
        params.scope@.len() == 0 ==> query@ == form_urlencoded(
            params_pairs(*params, Seq::empty()),
        ),
{
    let source = serde::de::value::BytesDeserializer::<serde::de::value::Error>::new(&params.state.bytes);
    let challenge = params.pkce_code_challenge.as_ref().map(|challenge| grant::pkce::PkceCodeChallenge {
        method: grant::pkce::PkceCodeChallengeMethod::Sha256,
        verifier: String::from_utf8_lossy(&challenge.verifier.bytes).parse().unwrap(),
    });
    grant::authorization_request::AuthorizationRequestParams {
        client_id: params.client_id.as_str().into(),
        redirect_uri: params.redirect_uri.as_deref().map(Into::into),
        scope: params.scope.iter().map(Into::into).collect(),
        state: Some(Cow::Owned(grant::state::State::deserialize(source).unwrap())),
        pkce_code_challenge: challenge.map(Cow::Owned),
    }.to_form_url_encoded_string()
}

/// A request shows the state in its third pair, and the challenge of the
/// verifier in the only pair that goes by `code_challenge`, followed by the
/// method `S256`.
pub proof fn lemma_request_shows_state_and_challenge(
    client_id: Seq<char>,
    state: Seq<char>,
    redirect_uri: Option<Seq<char>>,
    order: Seq<Seq<char>>,
    verifier: Seq<u8>,
)
    ensures
        ({
            let pairs = request_pairs(
                client_id,
                state,
                redirect_uri,
                order,
                challenge_of(Some(verifier)),
            );
            let n = pairs.len() as int;
            &&& n >= 5
            &&& pairs[2] == ("state"@, state)
            &&& pairs[n - 2] == ("code_challenge"@, pkce_challenge(verifier))
            &&& pairs[n - 1] == ("code_challenge_method"@, "S256"@)
            &&& forall|i: int| 0 <= i < n && i != n - 2 ==> (#[trigger] pairs[i]).0 != "code_challenge"@
        }),
{
    reveal_strlit("response_type");
    reveal_strlit("client_id");
    reveal_strlit("state");
    reveal_strlit("redirect_uri");
    reveal_strlit("scope");
    reveal_strlit("code_challenge");
    reveal_strlit("code_challenge_method");
    let head = seq![("response_type"@, "code"@), ("client_id"@, client_id), ("state"@, state)];
    let redirect: Seq<(Seq<char>, Seq<char>)> = match redirect_uri {
        Some(uri) => seq![("redirect_uri"@, uri)],
        None => seq![],
    };
    let scope: Seq<(Seq<char>, Seq<char>)> = if order.len() > 0 {
        seq![("scope"@, spaced(order))]
    } else {
        seq![]
    };
    let shown = seq![
        ("code_challenge"@, pkce_challenge(verifier)),
        ("code_challenge_method"@, "S256"@),
    ];
    let pairs = head + redirect + scope + shown;
    assert(pairs == request_pairs(
        client_id,
        state,
        redirect_uri,
        order,
        challenge_of(Some(verifier)),
    ));
    let n = pairs.len() as int;
    assert forall|i: int| 0 <= i < n && i != n - 2 implies (#[trigger] pairs[i]).0.len()
        != 14 by {
        if i < 3 {
            assert(pairs[i] == head[i]);
        } else if i < 3 + redirect.len() {
            assert(pairs[i] == redirect[i - 3]);
        } else if i < 3 + redirect.len() + scope.len() {
            assert(pairs[i] == scope[i - 3 - redirect.len()]);
        } else {
            assert(pairs[i] == shown[i - 3 - redirect.len() - scope.len()]);
        }
    }
}

/// The request of an account with PKCE shows its state in the third pair,
/// and the challenge of its verifier in the only pair that goes by
/// `code_challenge`.
pub proof fn lemma_account_request_shows_challenge(
    account: Account,
    state: Seq<u8>,
    verifier: Seq<u8>,
    order: Seq<Seq<char>>,
)
    ensures
        ({
            let pairs = account_pairs(account, state, Some(verifier), order);
            let n = pairs.len() as int;
            &&& n >= 5
            &&& pairs[2] == ("state"@, state_text(state))
            &&& pairs[n - 2] == ("code_challenge"@, pkce_challenge(verifier))
            &&& pairs[n - 1] == ("code_challenge_method"@, "S256"@)
            &&& forall|i: int| 0 <= i < n && i != n - 2 ==> (#[trigger] pairs[i]).0 != "code_challenge"@
        }),
{
    lemma_request_shows_state_and_challenge(
        account.client_id@,
        state_text(state),
        match account.endpoints.redirection {
            Some(uri) => Some(uri@.text),
            None => None,
        },
        order,
        verifier,
    );
}

impl AuthorizationRequestParams {
    /// The parameters of the request of `account` for the flow with the
    /// given state and verifier.
    pub fn of(account: &Account, state: &State, verifier: &Option<PkceCodeVerifier>) -> (params:
        AuthorizationRequestParams)
        ensures
            is_request_params(params, *account, state@, verifier_view(*verifier)),
    {
        let redirect_uri = match &account.endpoints.redirection {
            Some(uri) => Some(String::from_str(uri.as_str())),
            None => None,
        };
        let pkce_code_challenge = match verifier {
            Some(verifier) => Some(PkceCodeChallenge::new(verifier.duplicate())),
            None => None,
        };
        AuthorizationRequestParams {
            client_id: account.client_id.clone(),
            redirect_uri,
            scope: copy_texts(&account.scopes),
            state: state.duplicate(),
            pkce_code_challenge,
        }
    }
}

/// The fixed answer of the listener to the redirected browser.
pub const REDIRECTION_RESPONSE: &'static str = "HTTP/1.0 200 OK\r\n\r\nAuthorization succeeded!";

/// A flow that waits for its redirection in this process.
pub struct Listening {
    authorization_uri: AuthorizationUri,
    scheme: String,
    host: String,
    port: u16,
}

/// The mathematical value of a [`Listening`].
pub struct ListeningView {
    /// The request of the flow.
    pub request: AuthorizationUri,
    /// The scheme of redirections.
    pub scheme: Seq<char>,
    /// The host to listen on.
    pub host: Seq<char>,
    /// The port to listen on.
    pub port: u16,
}

impl View for Listening {
    type V = ListeningView;

    closed spec fn view(&self) -> ListeningView {
        ListeningView {
            request: self.authorization_uri,
            scheme: self.scheme@,
            host: self.host@,
            port: self.port,
        }
    }
}

/// A flow that was started.
pub enum Started {
    /// The request is to be shown, and the command ends: the user resumes
    /// the flow later with the state and the verifier shown.
    Emit(AuthorizationUri),
    /// The request is to be shown, the browser to be opened at its URI, and
    /// one connection to be accepted on the redirection host and port.
    Listen(Listening),
}

/// Whether `request` is a request of `account` in the given mode.
///
/// Its state is the URL-safe base64 text of 32 random bytes: 43 characters
/// of that alphabet. It has a verifier, of 43 characters, exactly where the
/// account uses PKCE. Its URI is the authorization endpoint with the form
/// encoding of the pairs of the request in place of its query: the pairs
/// hold this state and the challenge of this verifier, and the scopes of
/// the account in some order that lists each of them once.
pub open spec fn is_request_of(request: AuthorizationUri, account: Account, interactive: bool) -> bool {
    &&& request.interactive == interactive
    &&& request.pkce_code_verifier is Some <==> account.pkce
    &&& request.pkce_code_verifier matches Some(verifier) ==> verifier@.len() == 43
    &&& exists|raw: Seq<u8>|
        raw.len() == 32 && is_state(raw) && state_text(request.state@) == #[trigger] base64_url(raw)
    &&& is_base64_url_text(state_text(request.state@))
    &&& state_text(request.state@).len() == 43
    &&& exists|order: Seq<Seq<char>>|
        #[trigger] lists_each_once(order, account.scopes.deep_view())
            && request.authorization_uri@ == url_with_query(
            account.endpoints.authorization@.source,
            form_urlencoded(
                account_pairs(
                    account,
                    request.state@,
                    verifier_view(request.pkce_code_verifier),
                    order,
                ),
            ),
        )
}

/// Whether the listener waits where the redirections of `account` arrive.
pub open spec fn listens_for(listening: ListeningView, account: Account) -> bool {
    &&& listening.scheme == redirection_scheme_of(uri_view(account.endpoints.redirection))
    &&& listening.host == redirection_host_of(uri_view(account.endpoints.redirection))
    &&& listening.port == redirection_port_of(uri_view(account.endpoints.redirection))
}

/// The failure of a redirection whose request line has no second word.
pub open spec fn no_redirected_path() -> ErrorView {
    plain_error(ErrorKind::ProtocolViolation, "Missing path in redirection request"@)
}

/// The text of the URI that a request line stands for: the scheme, host and
/// port of the listener, then the second word of the line.
pub open spec fn redirected_text(
    scheme: Seq<char>,
    host: Seq<char>,
    port: u16,
    request_line: Seq<char>,
) -> Option<Seq<char>> {
    match second_word(request_line) {
        Some(path) => Some(scheme + "://"@ + host + ":"@ + decimal(port as nat) + path),
        None => None,
    }
}

/// The URI of the redirection that a request line stands for.
pub open spec fn redirected_uri(
    scheme: Seq<char>,
    host: Seq<char>,
    port: u16,
    request_line: Seq<char>,
) -> Result<UriView, ErrorView> {
    match redirected_text(scheme, host, port, request_line) {
        None => Err(no_redirected_path()),
        Some(text) => match url_parse(text) {
            Ok(_) => Ok(uri_of(text)),
            Err(message) => Err(
                caused_error(ErrorKind::ProtocolViolation, "Invalid redirection URI"@, message),
            ),
        },
    }
}

impl GetAuthorizationCommand {
    /// Starts a flow for `account`: draws the state and, where the account
    /// uses PKCE, the verifier, and makes the authorization request.
    ///
    /// `interactive` says whether the output is a terminal and `json`
    /// whether the output is structured. The flow goes on in this process
    /// only on a terminal with plain output.
    pub fn execute(self, account: &Account, interactive: bool, json: bool) -> (started: Started)
        ensures
            match started {
                Started::Emit(request) => {
                    &&& json || !interactive
                    &&& is_request_of(request, *account, interactive)
                },
                Started::Listen(listening) => {
                    &&& !json && interactive
                    &&& is_request_of(listening@.request, *account, interactive)
                    &&& listens_for(listening@, *account)
                },
            },
    {
        let state = State::generate();
        let verifier = if account.pkce {
            Some(PkceCodeVerifier::generate())
        } else {
            None
        };
        GetAuthorizationCommand::start(account, state, verifier, interactive, json)
    }

    /// Makes the authorization request of a flow with the given state and
    /// verifier: hands the parameters that [`AuthorizationRequestParams::of`]
    /// gives to the encoder, and goes on as
    /// [`GetAuthorizationCommand::started`] does with the query.
    ///
    /// The query is the form encoding of the pairs of the request, with the
    /// scopes of the account in some order that lists each of them once.
    pub fn start(
        account: &Account,
        state: State,
        verifier: Option<PkceCodeVerifier>,
        interactive: bool,
        json: bool,
    ) -> (started: Started)
        ensures
            exists|order: Seq<Seq<char>>|
                #[trigger] lists_each_once(order, account.scopes.deep_view()) && is_start(
                    started,
                    *account,
                    state@,
                    verifier_view(verifier),
                    form_urlencoded(account_pairs(*account, state@, verifier_view(verifier), order)),
                    interactive,
                    json,
                ),
            account.scopes@.len() == 0 ==> is_start(
                started,
                *account,
                state@,
                verifier_view(verifier),
                form_urlencoded(
                    account_pairs(*account, state@, verifier_view(verifier), Seq::empty()),
                ),
                interactive,
                json,
            ),
    {
        let params = AuthorizationRequestParams::of(account, &state, &verifier);
        let query = form_url_encoded(&params);
        proof {
            let order = choose|order: Seq<Seq<char>>|
                #[trigger] lists_each_once(order, params.scope.deep_view()) && query@
                    == form_urlencoded(params_pairs(params, order));
            assert(params_pairs(params, order) == account_pairs(
                *account,
                state@,
                verifier_view(verifier),
                order,
            ));
            assert(params.scope@.len() == params.scope.deep_view().len());
            assert(account.scopes@.len() == account.scopes.deep_view().len());
            assert(params_pairs(params, Seq::empty()) == account_pairs(
                *account,
                state@,
                verifier_view(verifier),
                Seq::empty(),
            ));
        }
        GetAuthorizationCommand::started(
            account,
            state,
            verifier,
            query.as_str(),
            interactive,
            json,
        )
    }

    /// How the flow starts once the parameters of its request made the
    /// query `query`: the authorization URI is the authorization endpoint
    /// with that query in place of its own.
    pub fn started(
        account: &Account,
        state: State,
        verifier: Option<PkceCodeVerifier>,
        query: &str,
        interactive: bool,
        json: bool,
    ) -> (started: Started)
        ensures
            is_start(started, *account, state@, verifier_view(verifier), query@, interactive, json),
    {
        let authorization_uri = AuthorizationUri {
            authorization_uri: account.endpoints.authorization.with_query(query),
            state,
            pkce_code_verifier: verifier,
            interactive,
        };
        if json || !interactive {
            Started::Emit(authorization_uri)
        } else {
            Started::Listen(
                Listening {
                    authorization_uri,
                    scheme: String::from_str(account.endpoints.redirection_scheme()),
                    host: String::from_str(account.endpoints.redirection_host()),
                    port: account.endpoints.redirection_port(),
                },
            )
        }
    }
}

/// Whether `request` is the request of `account` for the flow with the
/// given state and verifier, when the parameters of the request make the
/// query `query`.
pub open spec fn is_started_with(
    request: AuthorizationUri,
    account: Account,
    state: Seq<u8>,
    verifier: Option<Seq<u8>>,
    query: Seq<char>,
    interactive: bool,
) -> bool {
    &&& request.interactive == interactive
    &&& request.state@ == state
    &&& verifier_view(request.pkce_code_verifier) == verifier
    &&& request.authorization_uri@ == url_with_query(
        account.endpoints.authorization@.source,
        query,
    )
}

/// Whether `started` is how the flow of `account` with the given state and
/// verifier starts in the given mode, when the parameters of its request
/// make the query `query`.
///
/// The flow goes on in this process only on a terminal with plain output;
/// the listener then waits where the redirections of the account arrive.
pub open spec fn is_start(
    started: Started,
    account: Account,
    state: Seq<u8>,
    verifier: Option<Seq<u8>>,
    query: Seq<char>,
    interactive: bool,
    json: bool,
) -> bool {
    match started {
        Started::Emit(request) => {
            &&& json || !interactive
            &&& is_started_with(request, account, state, verifier, query, interactive)
        },
        Started::Listen(listening) => {
            &&& !json && interactive
            &&& is_started_with(listening@.request, account, state, verifier, query, interactive)
            &&& listens_for(listening@, account)
        },
    }
}

impl Listening {
    /// The request, to show before the browser is opened at its URI.
    pub fn authorization_uri(&self) -> (request: &AuthorizationUri)
        ensures
            *request == self@.request,
    {
        &self.authorization_uri
    }

    /// The scheme of redirections.
    pub fn scheme(&self) -> (scheme: &str)
        ensures
            scheme@ == self@.scheme,
    {
        self.scheme.as_str()
    }

    /// The host to listen on.
    pub fn host(&self) -> (host: &str)
        ensures
            host@ == self@.host,
    {
        self.host.as_str()
    }

    /// The port to listen on.
    pub fn port(&self) -> (port: u16)
        ensures
            port == self@.port,
    {
        self.port
    }

    /// The resumption that the first line of the redirected request stands
    /// for. It carries the state and the verifier of this flow.
    ///
    /// A line without a second word, or one whose second word makes no URI
    /// behind the scheme, host and port of the listener, fails: the
    /// listener accepts one connection and no second attempt.
    pub fn redirected(self, request_line: &str) -> (resumption: Result<ResumeAuthorization, Error>)
        ensures
            match redirected_uri(self@.scheme, self@.host, self@.port, request_line@) {
                Ok(uri) => {
                    &&& resumption matches Ok(command)
                    &&& command.redirected_uri@ == uri
                    &&& state_view(command.state) == Some(self@.request.state@)
                    &&& verifier_view(command.pkce) == verifier_view(
                        self@.request.pkce_code_verifier,
                    )
                },
                Err(error) => resumption matches Err(e) && e@ == error,
            },
    {
        let path = match second_word_of(request_line) {
            Some(path) => path,
            None => {
                return Err(
                    Error::new(
                        ErrorKind::ProtocolViolation,
                        String::from_str("Missing path in redirection request"),
                    ),
                );
            },
        };
        let mut text = String::from_str(self.scheme.as_str());
        text.append("://");
        text.append(self.host.as_str());
        text.append(":");
        let port = decimal_text(self.port as u64);
        text.append(port.as_str());
        text.append(path);
        match Uri::parse(text.as_str()) {
            Ok(redirected_uri) => Ok(
                ResumeAuthorization {
                    redirected_uri,
                    state: Some(self.authorization_uri.state),
                    pkce: self.authorization_uri.pkce_code_verifier,
                },
            ),
            Err(message) => Err(
                Error::with_cause(
                    ErrorKind::ProtocolViolation,
                    String::from_str("Invalid redirection URI"),
                    message,
                ),
            ),
        }
    }
}

} // verus!
