//! What the token endpoint answers: an access token, or an error.

use vstd::prelude::*;
use vstd::string::*;

use crate::secret::{secret_view, Secret};
use crate::text::text_view;

verus! {

/// A point in time: seconds and nanoseconds since the Unix epoch.
#[derive(Clone, Copy, Debug)]
pub struct Timestamp {
    pub(crate) secs: u64,
    pub(crate) nanos: u32,
}

/// The mathematical value of a [`Timestamp`].
pub struct TimestampView {
    pub secs: u64,
    pub nanos: u32,
}

/// The nanoseconds between the Unix epoch and `time`.
pub open spec fn nanos_since_epoch(time: TimestampView) -> nat {
    (time.secs * 1_000_000_000 + time.nanos) as nat
}

/// The whole seconds that passed between `since` and `now`; nothing where
/// `since` is later than `now`.
pub open spec fn elapsed_secs(since: TimestampView, now: TimestampView) -> Option<nat> {
    if nanos_since_epoch(since) <= nanos_since_epoch(now) {
        Some(((nanos_since_epoch(now) - nanos_since_epoch(since)) / 1_000_000_000) as nat)
    } else {
        None
    }
}

/// What is left at `now` of a lifetime of `expires_in` seconds that began at
/// `issued_at`: the lifetime less the elapsed seconds, never below zero; the
/// whole lifetime where `issued_at` is later than `now`.
pub open spec fn remaining_secs(expires_in: u64, issued_at: TimestampView, now: TimestampView) -> u64 {
    match elapsed_secs(issued_at, now) {
        Some(elapsed) => if elapsed >= expires_in {
            0u64
        } else {
            (expires_in - elapsed) as u64
        },
        None => expires_in,
    }
}

impl View for Timestamp {
    type V = TimestampView;

    closed spec fn view(&self) -> TimestampView {
        TimestampView { secs: self.secs, nanos: self.nanos }
    }
}

impl Timestamp {
    #[verifier::type_invariant]
    closed spec fn well_formed(&self) -> bool {
        self.nanos < 1_000_000_000
    }

    /// The time `secs` seconds and `nanos` nanoseconds after the epoch;
    /// nothing where `nanos` is a second or more.
    pub fn new(secs: u64, nanos: u32) -> (time: Option<Timestamp>)
        ensures
            if nanos < 1_000_000_000 {
                time matches Some(t) && t@ == (TimestampView { secs, nanos })
            } else {
                time is None
            },
    {
        if nanos < 1_000_000_000 {
            Some(Timestamp { secs, nanos })
        } else {
            None
        }
    }

    /// The time `secs` seconds after the epoch.
    pub fn from_secs(secs: u64) -> (time: Timestamp)
        ensures
            time@ == (TimestampView { secs, nanos: 0 }),
    {
        Timestamp { secs, nanos: 0 }
    }

    /// The whole seconds since the epoch.
    pub fn secs(&self) -> (secs: u64)
        ensures
            secs == self@.secs,
    {
        self.secs
    }

    /// The nanoseconds past the last whole second: less than a second.
    pub fn subsec_nanos(&self) -> (nanos: u32)
        ensures
            nanos == self@.nanos,
            nanos < 1_000_000_000,
    {
        proof {
            use_type_invariant(self);
        }
        self.nanos
    }

    fn total_nanos(&self) -> (total: u128)
        ensures
            total == nanos_since_epoch(self@),
    {
        self.secs as u128 * 1_000_000_000 + self.nanos as u128
    }

    /// The whole seconds that passed between `since` and `self`; nothing
    /// where `since` is later.
    pub fn elapsed_since(&self, since: &Timestamp) -> (elapsed: Option<u64>)
        ensures
            match elapsed_secs(since@, self@) {
                Some(secs) => elapsed == Some(secs as u64) && secs <= u64::MAX,
                None => elapsed is None,
            },
    {
        proof {
            use_type_invariant(self);
            use_type_invariant(since);
        }
        let now = self.total_nanos();
        let then = since.total_nanos();
        if then <= now {
            Some(((now - then) / 1_000_000_000) as u64)
        } else {
            None
        }
    }

    /// What is left at `self` of a lifetime of `expires_in` seconds that
    /// began at `issued_at`.
    pub fn remaining(&self, expires_in: u64, issued_at: &Timestamp) -> (left: u64)
        ensures
            left == remaining_secs(expires_in, issued_at@, self@),
    {
        let now = self.total_nanos();
        let since = issued_at.total_nanos();
        if since <= now {
            let elapsed = (now - since) / 1_000_000_000;
            if elapsed >= expires_in as u128 {
                0
            } else {
                expires_in - elapsed as u64
            }
        } else {
            expires_in
        }
    }
}

/// The time that is left never exceeds the lifetime, and while fewer than
/// `within` seconds have passed since the token was issued, fewer than
/// `within` seconds are gone from it.
pub proof fn lemma_remaining_bounds(
    expires_in: u64,
    issued_at: TimestampView,
    now: TimestampView,
    within: nat,
)
    requires
        elapsed_secs(issued_at, now) matches Some(elapsed) && elapsed < within,
    ensures
        remaining_secs(expires_in, issued_at, now) <= expires_in,
        remaining_secs(expires_in, issued_at, now) > expires_in - within,
{
}

/// The time that is left never exceeds the lifetime, whatever the clock
/// says.
pub proof fn lemma_remaining_at_most_lifetime(
    expires_in: u64,
    issued_at: TimestampView,
    now: TimestampView,
)
    ensures
        remaining_secs(expires_in, issued_at, now) <= expires_in,
{
}

/// The successful answer of the token endpoint.
pub struct TokenSuccess {
    /// The access token.
    pub access_token: Secret,
    /// The type of the token, usually `Bearer`.
    pub token_type: String,
    /// The lifetime of the access token in seconds.
    pub expires_in: Option<u64>,
    /// The refresh token that obtains further access tokens.
    pub refresh_token: Option<Secret>,
    /// The scope of the access token.
    pub scope: Option<String>,
    /// When the answer was read. The stamp is made locally.
    pub issued_at: Timestamp,
}

/// The mathematical value of a [`TokenSuccess`].
pub struct TokenSuccessView {
    pub access_token: Seq<char>,
    pub token_type: Seq<char>,
    pub expires_in: Option<u64>,
    pub refresh_token: Option<Seq<char>>,
    pub scope: Option<Seq<char>>,
    pub issued_at: TimestampView,
}

impl View for TokenSuccess {
    type V = TokenSuccessView;

    open spec fn view(&self) -> TokenSuccessView {
        TokenSuccessView {
            access_token: self.access_token@,
            token_type: self.token_type@,
            expires_in: self.expires_in,
            refresh_token: secret_view(self.refresh_token),
            scope: text_view(self.scope),
            issued_at: self.issued_at@,
        }
    }
}

/// The record with its lifetime replaced by what is left of it at `now`.
pub open spec fn synced(token: TokenSuccessView, now: TimestampView) -> TokenSuccessView {
    TokenSuccessView {
        expires_in: match token.expires_in {
            Some(expires_in) => Some(remaining_secs(expires_in, token.issued_at, now)),
            None => None,
        },
        ..token
    }
}

/// The record with `now` as its time of issue.
pub open spec fn stamped(token: TokenSuccessView, now: TimestampView) -> TokenSuccessView {
    TokenSuccessView { issued_at: now, ..token }
}

/// The record with the refresh token `previous` where it has none itself.
pub open spec fn with_previous_refresh_token(
    token: TokenSuccessView,
    previous: Option<Seq<char>>,
) -> TokenSuccessView {
    TokenSuccessView {
        refresh_token: match token.refresh_token {
            Some(fresh) => Some(fresh),
            None => previous,
        },
        ..token
    }
}

impl TokenSuccess {
    /// Replaces the lifetime by what is left of it at `now`, so that a
    /// record that sat in storage tells the truth about its expiry.
    pub fn sync_expires_in(&mut self, now: &Timestamp)
        ensures
            final(self)@ == synced(old(self)@, now@),
    {
        match self.expires_in {
            Some(expires_in) => {
                self.expires_in = Some(now.remaining(expires_in, &self.issued_at));
            },
            None => {},
        }
    }

    /// Stamps the record with `now` as its time of issue: the time at which
    /// the answer was read here counts, whatever the answer says.
    pub fn stamp(self, now: &Timestamp) -> (token: TokenSuccess)
        ensures
            token@ == stamped(self@, now@),
    {
        TokenSuccess {
            access_token: self.access_token,
            token_type: self.token_type,
            expires_in: self.expires_in,
            refresh_token: self.refresh_token,
            scope: self.scope,
            issued_at: *now,
        }
    }

    /// Keeps the refresh token `previous` where the record brings none: a
    /// provider need not rotate refresh tokens.
    pub fn or_refresh_token(self, previous: Option<Secret>) -> (token: TokenSuccess)
        ensures
            token@ == with_previous_refresh_token(self@, secret_view(previous)),
    {
        let refresh_token = match self.refresh_token {
            Some(fresh) => Some(fresh),
            None => previous,
        };
        TokenSuccess {
            access_token: self.access_token,
            token_type: self.token_type,
            expires_in: self.expires_in,
            refresh_token,
            scope: self.scope,
            issued_at: self.issued_at,
        }
    }

    /// Whether the record is known to have expired: nothing is left of its
    /// lifetime.
    pub fn is_expired(&self) -> (expired: bool)
        ensures
            expired == (self.expires_in == Some(0u64)),
    {
        match self.expires_in {
            Some(left) => left == 0,
            None => false,
        }
    }
}

/// The error codes of the token endpoint.
#[derive(Clone, Copy, Debug, PartialEq, Eq, Structural)]
pub enum TokenErrorCode {
    /// Client authentication failed.
    InvalidClient,
    /// The grant or the refresh token is invalid, expired or revoked.
    InvalidGrant,
    /// The request is malformed.
    InvalidRequest,
    /// The requested scope is invalid or exceeds what was granted.
    InvalidScope,
    /// The client may not use this grant type.
    UnauthorizedClient,
    /// The server does not support this grant type.
    UnsupportedGrantType,
}

/// The code as the provider writes it.
pub open spec fn token_error_code(code: TokenErrorCode) -> Seq<char> {
    match code {
        TokenErrorCode::InvalidClient => "invalid_client"@,
        TokenErrorCode::InvalidGrant => "invalid_grant"@,
        TokenErrorCode::InvalidRequest => "invalid_request"@,
        TokenErrorCode::InvalidScope => "invalid_scope"@,
        TokenErrorCode::UnauthorizedClient => "unauthorized_client"@,
        TokenErrorCode::UnsupportedGrantType => "unsupported_grant_type"@,
    }
}

/// The name of the code, as hooks get it.
pub open spec fn token_error_name(code: TokenErrorCode) -> Seq<char> {
    match code {
        TokenErrorCode::InvalidClient => "InvalidClient"@,
        TokenErrorCode::InvalidGrant => "InvalidGrant"@,
        TokenErrorCode::InvalidRequest => "InvalidRequest"@,
        TokenErrorCode::InvalidScope => "InvalidScope"@,
        TokenErrorCode::UnauthorizedClient => "UnauthorizedClient"@,
        TokenErrorCode::UnsupportedGrantType => "UnsupportedGrantType"@,
    }
}

impl TokenErrorCode {
    /// The code as the provider writes it.
    pub fn as_str(&self) -> (code: &'static str)
        ensures
            code@ == token_error_code(*self),
    {
        match self {
            TokenErrorCode::InvalidClient => "invalid_client",
            TokenErrorCode::InvalidGrant => "invalid_grant",
            TokenErrorCode::InvalidRequest => "invalid_request",
            TokenErrorCode::InvalidScope => "invalid_scope",
            TokenErrorCode::UnauthorizedClient => "unauthorized_client",
            TokenErrorCode::UnsupportedGrantType => "unsupported_grant_type",
        }
    }

    /// The name of the code, as hooks get it.
    pub fn name(&self) -> (name: &'static str)
        ensures
            name@ == token_error_name(*self),
    {
        match self {
            TokenErrorCode::InvalidClient => "InvalidClient",
            TokenErrorCode::InvalidGrant => "InvalidGrant",
            TokenErrorCode::InvalidRequest => "InvalidRequest",
            TokenErrorCode::InvalidScope => "InvalidScope",
            TokenErrorCode::UnauthorizedClient => "UnauthorizedClient",
            TokenErrorCode::UnsupportedGrantType => "UnsupportedGrantType",
        }
    }
}

/// The error answer of the token endpoint.
#[derive(Debug)]
pub struct TokenError {
    /// The error code.
    pub error: TokenErrorCode,
    /// A text for the developer.
    pub error_description: Option<String>,
    /// A page about the error.
    pub error_uri: Option<String>,
}

/// The mathematical value of a [`TokenError`].
pub struct TokenErrorView {
    pub error: TokenErrorCode,
    pub error_description: Option<Seq<char>>,
    pub error_uri: Option<Seq<char>>,
}

impl View for TokenError {
    type V = TokenErrorView;

    open spec fn view(&self) -> TokenErrorView {
        TokenErrorView {
            error: self.error,
            error_description: text_view(self.error_description),
            error_uri: text_view(self.error_uri),
        }
    }
}

} // verus!
