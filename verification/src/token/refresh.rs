//! Refreshing the access token.

use vstd::prelude::*;
use vstd::string::*;

use crate::access_token::{Timestamp, TokenSuccess, TokenSuccessView};
use crate::account::Account;
use crate::error::{plain_error, Error, ErrorKind, ErrorView};
use crate::exchange::{
    authorization, is_authorization, lent_secret_view, Grant, Operation, Pending, TokenRequest,
};
use crate::secret::Secret;
use crate::storage::{
    record_in, undefined_storage, Backend, ReadReply, Reading, Storage,
};
use crate::stream::Tls;
use crate::text::{copy_texts, decimal, decimal_text};
use crate::uri::{UriParts, UriView};

verus! {

/// Whether the `http` crate parses `text` as a URI.
pub uninterp spec fn http_uri_parses(text: Seq<char>) -> bool;

/// Calls the `FromStr` impl of `http::Uri` and says whether it succeeded.
/// The contract only names the outcome.
#[verifier::external_body]
fn is_http_uri(text: &str) -> (parses: bool)
    ensures
        parses == http_uri_parses(text@),
{
    text.parse::<http::Uri>().is_ok()
}

/// Refreshes the access token of an account.
pub struct RefreshTokenCommand;

/// A refresh that is ready to go: the exchange that is to follow.
pub struct RefreshExchange {
    uri: String,
    tls: Tls,
    host: String,
    needs_secret: bool,
    refresh_token: Secret,
}

/// The mathematical value of a [`RefreshExchange`].
pub struct RefreshExchangeView {
    /// The URI to connect to: the scheme, host and port of the token
    /// endpoint.
    pub uri: Seq<char>,
    /// The TLS backend to connect with.
    pub tls: Tls,
    /// The value of the `Host` header.
    pub host: Seq<char>,
    /// Whether the client secret of the account has to be resolved for the
    /// request.
    pub needs_secret: bool,
    /// The refresh token to send.
    pub refresh_token: Seq<char>,
}

impl View for RefreshExchange {
    type V = RefreshExchangeView;

    closed spec fn view(&self) -> RefreshExchangeView {
        RefreshExchangeView {
            uri: self.uri@,
            tls: self.tls,
            host: self.host@,
            needs_secret: self.needs_secret,
            refresh_token: self.refresh_token@,
        }
    }
}

/// The failure of a refresh without a refresh token.
pub open spec fn missing_refresh_token() -> ErrorView {
    plain_error(ErrorKind::ProtocolViolation, "Missing refresh token"@)
}

/// The host and port of a token endpoint, as the `Host` header gives them.
pub open spec fn host_and_port(host: Seq<char>, port: u16) -> Seq<char> {
    host + ":"@ + decimal(port as nat)
}

/// The URI made of the scheme, host and port of a token endpoint, and the
/// value of the `Host` header; a failure for an endpoint without host or
/// port.
pub open spec fn endpoint_uri(endpoint: UriView) -> Result<(Seq<char>, Seq<char>), ErrorView> {
    match endpoint.host {
        None => Err(
            plain_error(
                ErrorKind::Configuration,
                "Missing token endpoint host name in "@ + endpoint.text,
            ),
        ),
        Some(host) => match endpoint.port {
            None => Err(
                plain_error(
                    ErrorKind::Configuration,
                    "Missing token endpoint port in "@ + endpoint.text,
                ),
            ),
            Some(port) => Ok(
                (endpoint.scheme + "://"@ + host_and_port(host, port), host_and_port(host, port)),
            ),
        },
    }
}

/// The failure of an endpoint whose scheme, host and port make no URI.
pub open spec fn invalid_token_uri(endpoint: UriView) -> ErrorView {
    plain_error(
        ErrorKind::Configuration,
        "Invalid token URI using "@ + endpoint.scheme + ", "@ + endpoint.host->Some_0 + " and "@
            + decimal(endpoint.port->Some_0 as nat),
    )
}

/// Where a refresh connects to, and the value of its `Host` header, when
/// `parses` says whether the scheme, host and port of the endpoint make a
/// URI.
pub open spec fn refresh_target_given(endpoint: UriView, parses: bool) -> Result<
    (Seq<char>, Seq<char>),
    ErrorView,
> {
    match endpoint_uri(endpoint) {
        Err(error) => Err(error),
        Ok(target) => if parses {
            Ok(target)
        } else {
            Err(invalid_token_uri(endpoint))
        },
    }
}

/// Where a refresh connects to, and the value of its `Host` header.
///
/// The token endpoint needs a host and a port, and its scheme, host and
/// port must make a URI for the `http` crate.
pub open spec fn refresh_target(endpoint: UriView) -> Result<(Seq<char>, Seq<char>), ErrorView> {
    refresh_target_given(
        endpoint,
        match endpoint_uri(endpoint) {
            Ok(target) => http_uri_parses(target.0),
            Err(_) => false,
        },
    )
}

/// The view of a target.
pub open spec fn target_view(target: Result<(String, String), Error>) -> Result<
    (Seq<char>, Seq<char>),
    ErrorView,
> {
    match target {
        Ok(target) => Ok((target.0@, target.1@)),
        Err(error) => Err(error@),
    }
}

/// The body of the request that exchanges `refresh_token`.
pub open spec fn is_refresh_grant(
    grant: Grant,
    client_id: Seq<char>,
    refresh_token: Seq<char>,
    scopes: Seq<Seq<char>>,
) -> bool {
    match grant {
        Grant::RefreshToken { client_id: id, refresh_token: token, scopes: asked } => {
            &&& id@ == client_id
            &&& token@ == refresh_token
            &&& asked.deep_view() == scopes
        },
        Grant::AuthorizationCode { .. } => false,
    }
}

/// A refresh that is under way: the reply of the storage is awaited.
pub struct Refreshing {
    reading: Reading,
}

/// The refresh token of a stored record, or the failure of a record
/// without one. An empty refresh token is none.
pub open spec fn stored_refresh_token(token: TokenSuccessView) -> Result<Seq<char>, ErrorView> {
    match token.refresh_token {
        Some(stored) => if stored.len() == 0 {
            Err(missing_refresh_token())
        } else {
            Ok(stored)
        },
        None => Err(missing_refresh_token()),
    }
}

impl Refreshing {
    /// The backend that is asked.
    pub closed spec fn asked(&self) -> Backend {
        self.reading.asked()
    }

    /// The backend to ask for the record.
    pub fn backend(&self) -> (backend: Backend)
        ensures
            backend == self.asked(),
    {
        self.reading.backend()
    }

    /// The refresh token of the record that the backend gave at `now`; the
    /// failure of the read, or that of a record without a refresh token.
    pub fn read(self, reply: ReadReply, now: &Timestamp) -> (refresh_token: Result<Secret, Error>)
        ensures
            match record_in(reply) {
                Err(error) => refresh_token matches Err(e) && e@ == error,
                Ok(read) => match stored_refresh_token(read.0) {
                    Ok(stored) => refresh_token matches Ok(found) && found@ == stored,
                    Err(error) => refresh_token matches Err(e) && e@ == error,
                },
            },
    {
        let record = self.reading.record(reply, now);
        match record {
            Ok(token) => RefreshTokenCommand::refresh_token(token),
            Err(error) => Err(error),
        }
    }
}

impl RefreshTokenCommand {
    /// Begins the command: finds the backend that holds the record, or
    /// fails for an account without one.
    pub fn execute(self, account: &Account) -> (refreshing: Result<Refreshing, Error>)
        ensures
            match account.storage.read {
                Storage::Undefined => refreshing matches Err(e) && e@ == undefined_storage(
                    "Cannot read token: storage not defined"@,
                ),
                Storage::Command => refreshing matches Ok(r) && r.asked() == Backend::Command,
                Storage::Keyring => refreshing matches Ok(r) && r.asked() == Backend::Keyring,
            },
    {
        match account.storage.read() {
            Ok(reading) => Ok(Refreshing { reading }),
            Err(error) => Err(error),
        }
    }

    /// The refresh token to use, out of the stored record; a failure where
    /// the record has none, and the flow has to start over.
    pub fn refresh_token(token: TokenSuccess) -> (refresh_token: Result<Secret, Error>)
        ensures
            match stored_refresh_token(token@) {
                Ok(stored) => refresh_token matches Ok(found) && found@ == stored,
                Err(error) => refresh_token matches Err(e) && e@ == error,
            },
    {
        match token.refresh_token {
            Some(stored) => {
                if stored.expose().is_empty() {
                    Err(
                        Error::new(
                            ErrorKind::ProtocolViolation,
                            String::from_str("Missing refresh token"),
                        ),
                    )
                } else {
                    Ok(stored)
                }
            },
            None => Err(
                Error::new(ErrorKind::ProtocolViolation, String::from_str("Missing refresh token")),
            ),
        }
    }

    /// The URI made of the scheme, host and port of the token endpoint with
    /// the given components, and the value of the `Host` header.
    pub fn endpoint_uri(endpoint: &UriParts) -> (target: Result<(String, String), Error>)
        ensures
            target_view(target) == endpoint_uri(endpoint@),
    {
        let host = match endpoint.host_str() {
            Some(host) => host,
            None => {
                let mut message = String::from_str("Missing token endpoint host name in ");
                message.append(endpoint.text.as_str());
                return Err(Error::new(ErrorKind::Configuration, message));
            },
        };
        let port = match endpoint.port {
            Some(port) => port,
            None => {
                let mut message = String::from_str("Missing token endpoint port in ");
                message.append(endpoint.text.as_str());
                return Err(Error::new(ErrorKind::Configuration, message));
            },
        };
        let digits = decimal_text(port as u64);
        let mut header = String::from_str(host);
        header.append(":");
        header.append(digits.as_str());
        let mut uri = String::from_str(endpoint.scheme.as_str());
        uri.append("://");
        uri.append(header.as_str());
        Ok((uri, header))
    }

    /// Where a refresh connects to, and the value of its `Host` header,
    /// when `parses` says whether the scheme, host and port of the endpoint
    /// make a URI.
    pub fn target(endpoint: &UriParts, parses: bool) -> (target: Result<(String, String), Error>)
        ensures
            target_view(target) == refresh_target_given(endpoint@, parses),
    {
        let target = match RefreshTokenCommand::endpoint_uri(endpoint) {
            Ok(target) => target,
            Err(error) => {
                return Err(error);
            },
        };
        if parses {
            return Ok(target);
        }
        let mut message = String::from_str("Invalid token URI using ");
        message.append(endpoint.scheme.as_str());
        message.append(", ");
        match endpoint.host_str() {
            Some(host) => {
                message.append(host);
            },
            None => {},
        }
        message.append(" and ");
        match endpoint.port {
            Some(port) => {
                let digits = decimal_text(port as u64);
                message.append(digits.as_str());
            },
            None => {},
        }
        Err(Error::new(ErrorKind::Configuration, message))
    }

    /// Says what to connect to in order to refresh with `refresh_token`.
    pub fn refresh(account: &Account, refresh_token: Secret) -> (next: Result<
        RefreshExchange,
        Error,
    >)
        ensures
            match refresh_target(account.endpoints.token@) {
                Err(error) => next matches Err(e) && e@ == error,
                Ok((uri, host)) => {
                    &&& next matches Ok(exchange)
                    &&& exchange@ == (RefreshExchangeView {
                        uri,
                        tls: account.tls,
                        host,
                        needs_secret: account.client_secret,
                        refresh_token: refresh_token@,
                    })
                },
            },
    {
        let endpoint = account.endpoints.token.parts();
        let parses = match RefreshTokenCommand::endpoint_uri(endpoint) {
            Ok(target) => is_http_uri(target.0.as_str()),
            Err(_) => false,
        };
        match RefreshTokenCommand::target(endpoint, parses) {
            Ok((uri, host)) => Ok(
                RefreshExchange {
                    uri,
                    tls: account.tls,
                    host,
                    needs_secret: account.client_secret,
                    refresh_token,
                },
            ),
            Err(error) => Err(error),
        }
    }
}

impl RefreshExchange {
    /// The URI to connect to.
    pub fn uri(&self) -> (uri: &str)
        ensures
            uri@ == self@.uri,
    {
        self.uri.as_str()
    }

    /// The TLS backend to connect with.
    pub fn tls(&self) -> (tls: Tls)
        ensures
            tls == self@.tls,
    {
        self.tls
    }

    /// The value of the `Host` header.
    pub fn host(&self) -> (host: &str)
        ensures
            host@ == self@.host,
    {
        self.host.as_str()
    }

    /// Whether the client secret of the account has to be resolved for the
    /// request.
    pub fn needs_secret(&self) -> (needed: bool)
        ensures
            needed == self@.needs_secret,
    {
        self.needs_secret
    }

    /// The request to send once the stream is open.
    ///
    /// `secret` is the client secret of the account, resolved by the
    /// caller; with one, the request authenticates the client. The request
    /// carries the refresh token and the scopes of the account, and no PKCE
    /// verifier.
    pub fn request(self, account: &Account, secret: Option<&Secret>) -> (sent: (
        TokenRequest,
        Pending,
    ))
        ensures
            sent.1.operation() == Operation::Refresh,
            ({
                let request = sent.0;
                &&& request.path@ == account.endpoints.token@.path
                &&& request.host@ == self@.host
                &&& is_authorization(
                    request.authorization,
                    account.client_id@,
                    lent_secret_view(secret),
                )
                &&& is_refresh_grant(
                    request.grant,
                    account.client_id@,
                    self@.refresh_token,
                    account.scopes.deep_view(),
                )
            }),
    {
        let request = TokenRequest {
            path: String::from_str(account.endpoints.token.path()),
            host: self.host,
            authorization: authorization(account.client_id.as_str(), secret),
            grant: Grant::RefreshToken {
                client_id: account.client_id.clone(),
                refresh_token: self.refresh_token,
                scopes: copy_texts(&account.scopes),
            },
        };
        (request, Pending::new(Operation::Refresh))
    }
}

} // verus!
