//! The exchange with the token endpoint: what is sent, and what the answer
//! means.
//!
//! The exchange itself is a sequence of reads and writes on a stream that
//! the caller drives. This module builds the request before it and judges
//! the outcome after it.

use vstd::prelude::*;
use vstd::string::*;
use vstd::utf8::*;

use crate::access_token::{
    stamped, token_error_code, with_previous_refresh_token, Timestamp, TimestampView,
    TokenError, TokenErrorView, TokenSuccess, TokenSuccessView,
};
use crate::account::Account;
use crate::duration::{announced_expiry, expiry_text};
use crate::encoding::{base64_standard, base64_standard_encode, base64_standard_len};
use crate::error::{
    caused_error, plain_error, provider_error, Error, ErrorKind, ErrorView,
};
use crate::hook::{
    error_envs, error_variables, is_hook_plan, success_envs, success_variables, HookPlan, Hooks,
};
use crate::pkce::PkceCodeVerifier;
use crate::secret::{secret_view, Secret};
use crate::storage::{
    record_in, record_written, undefined_storage, write_request, Backend,
    ReadReply, Reading, Storage, WriteReply, Writing,
};
use crate::text::text_view;

verus! {

/// What the body of a token request holds.
pub enum Grant {
    /// An authorization code is exchanged for a token.
    AuthorizationCode {
        code: String,
        redirect_uri: Option<String>,
        client_id: String,
        code_verifier: Option<PkceCodeVerifier>,
    },
    /// A refresh token is exchanged for a token.
    RefreshToken { client_id: String, refresh_token: Secret, scopes: Vec<String> },
}

/// A `POST` request to the token endpoint.
pub struct TokenRequest {
    /// The path to post to.
    pub path: String,
    /// The value of the `Host` header.
    pub host: String,
    /// The value of the `Authorization` header, where the account has a
    /// client secret.
    pub authorization: Option<Secret>,
    /// The body, before it is form-encoded.
    pub grant: Grant,
}

/// The value of the `Authorization` header for a client and its secret:
/// `Basic`, then the standard base64 text, with padding, of the identifier,
/// a colon and the secret.
pub open spec fn basic_credentials(client_id: Seq<char>, secret: Seq<char>) -> Seq<char> {
    "Basic "@ + base64_standard(encode_utf8(client_id + ":"@ + secret))
}

/// The length of the `Authorization` header value for a client and its
/// secret: `Basic` and a space, then four characters for every three bytes,
/// begun or complete, of the identifier, a colon and the secret.
pub open spec fn basic_credentials_len(client_id: Seq<char>, secret: Seq<char>) -> nat {
    6 + base64_standard_len(encode_utf8(client_id + ":"@ + secret).len())
}

/// Whether `header` is the value of the `Authorization` header for a client
/// and its optional secret: none without a secret, and with one the padded
/// credentials that [`basic_credentials`] gives, in their full length.
pub open spec fn is_authorization(
    header: Option<Secret>,
    client_id: Seq<char>,
    secret: Option<Seq<char>>,
) -> bool {
    match secret {
        Some(secret) => {
            &&& header matches Some(value)
            &&& value@ == basic_credentials(client_id, secret)
            &&& value@.len() == basic_credentials_len(client_id, secret)
        },
        None => header is None,
    }
}

/// The view of an optional secret that is lent.
pub open spec fn lent_secret_view(secret: Option<&Secret>) -> Option<Seq<char>> {
    match secret {
        Some(secret) => Some(secret@),
        None => None,
    }
}

/// The value of the `Authorization` header with the given digest of the
/// credentials.
pub fn basic(digest: &str) -> (header: Secret)
    ensures
        header@ == "Basic "@ + digest@,
{
    let mut header = String::from_str("Basic ");
    header.append(digest);
    Secret::new(header)
}

/// The value of the `Authorization` header that authenticates the client
/// `client_id` with `secret`.
pub fn authorization(client_id: &str, secret: Option<&Secret>) -> (header: Option<Secret>)
    ensures
        is_authorization(header, client_id@, lent_secret_view(secret)),
{
    proof {
        reveal_strlit("Basic ");
    }
    match secret {
        Some(secret) => {
            let mut credentials = String::from_str(client_id);
            credentials.append(":");
            credentials.append(secret.expose());
            let digest = base64_standard_encode(credentials.as_str().as_bytes());
            Some(basic(digest.as_str()))
        },
        None => None,
    }
}

/// What a token is asked for.
#[derive(Clone, Copy, Debug, PartialEq, Eq, Structural)]
pub enum Operation {
    /// An authorization code is exchanged: a token is issued.
    Issue,
    /// A refresh token is exchanged: the token is refreshed.
    Refresh,
}

/// The message under which a malformed answer fails the command.
pub open spec fn malformed_message(operation: Operation) -> Seq<char> {
    match operation {
        Operation::Issue => "Parse access token response error"@,
        Operation::Refresh => "Refresh OAuth 2.0 access token error"@,
    }
}

/// The message under which an error of the provider fails the command.
pub open spec fn denied_message(operation: Operation) -> Seq<char> {
    match operation {
        Operation::Issue => "Issue access token error"@,
        Operation::Refresh => "Refresh access token error"@,
    }
}

/// The message that reports the token, before its expiry.
pub open spec fn done_message(operation: Operation) -> Seq<char> {
    match operation {
        Operation::Issue => "Access token successfully issued"@,
        Operation::Refresh => "Access token successfully refreshed"@,
    }
}

/// The hooks of an operation.
pub open spec fn hooks_of(account: Account, operation: Operation) -> Hooks {
    match operation {
        Operation::Issue => account.on_issue_access_token,
        Operation::Refresh => account.on_refresh_access_token,
    }
}

/// The message that reports a token, given its lifetime in words: with the
/// lifetime, or with `unknown expiry`.
pub open spec fn message_with(what: Seq<char>, expiry: Option<Seq<char>>) -> Seq<char> {
    match expiry {
        Some(expiry) => what + " (expires in "@ + expiry + ")"@,
        None => what + " (unknown expiry)"@,
    }
}

/// The message that reports a token with a lifetime of `expires_in`
/// seconds.
pub open spec fn success_message(what: Seq<char>, expires_in: Option<u64>) -> Seq<char> {
    message_with(
        what,
        match expires_in {
            Some(secs) => Some(announced_expiry(secs)),
            None => None,
        },
    )
}

/// Renders the message that reports a token, given its lifetime in words.
pub fn success_text(what: &str, expiry: Option<&str>) -> (message: String)
    ensures
        message@ == message_with(
            what@,
            match expiry {
                Some(expiry) => Some(expiry@),
                None => None,
            },
        ),
{
    let mut message = String::from_str(what);
    match expiry {
        Some(expiry) => {
            message.append(" (expires in ");
            message.append(expiry);
            message.append(")");
        },
        None => {
            message.append(" (unknown expiry)");
        },
    }
    message
}

/// Renders the message that reports a token with a lifetime of
/// `expires_in` seconds.
pub fn report_success(what: &str, expires_in: Option<u64>) -> (message: String)
    ensures
        message@ == success_message(what@, expires_in),
{
    match expires_in {
        Some(secs) => {
            let expiry = expiry_text(secs);
            success_text(what, Some(expiry.as_str()))
        },
        None => success_text(what, None),
    }
}

/// How an exchange with the token endpoint ended.
pub enum Exchanged {
    /// The stream failed, or the request could not be built: the message of
    /// the error.
    Failed(String),
    /// The answer was no HTTP response, or its body no token payload: the
    /// message of the error.
    Malformed(String),
    /// The provider issued a token.
    Granted(TokenSuccess),
    /// The provider answered with an error.
    Denied(TokenError),
}

/// Why a command that asked for a token fails.
pub struct Refusal {
    /// What the token was asked for.
    pub operation: Operation,
    /// The failure of the command.
    pub error: Error,
    /// The answer of the provider to hand to the error hook, where the
    /// provider answered.
    pub denied: Option<TokenError>,
}

/// The mathematical value of a [`Refusal`].
pub struct RefusalView {
    pub operation: Operation,
    pub error: ErrorView,
    pub denied: Option<TokenErrorView>,
}

impl View for Refusal {
    type V = RefusalView;

    open spec fn view(&self) -> RefusalView {
        RefusalView {
            operation: self.operation,
            error: self.error@,
            denied: match self.denied {
                Some(denied) => Some(denied@),
                None => None,
            },
        }
    }
}

/// What the end of an exchange means for the command, when the answer was
/// read at `now`.
///
/// A token goes on to storage and to the success hook, stamped with `now`
/// as its time of issue. Anything else fails the command: a failed stream
/// as it is, a malformed answer and an error of the provider under the
/// message of the operation, the latter with its code; only an error of the
/// provider reaches the error hook.
pub open spec fn settled(exchanged: Exchanged, operation: Operation, now: TimestampView) -> Result<
    TokenSuccessView,
    RefusalView,
> {
    match exchanged {
        Exchanged::Failed(message) => Err(
            RefusalView {
                operation,
                error: plain_error(ErrorKind::Transport, message@),
                denied: None,
            },
        ),
        Exchanged::Malformed(cause) => Err(
            RefusalView {
                operation,
                error: caused_error(
                    ErrorKind::ProtocolViolation,
                    malformed_message(operation),
                    cause@,
                ),
                denied: None,
            },
        ),
        Exchanged::Granted(token) => Ok(stamped(token@, now)),
        Exchanged::Denied(answer) => Err(
            RefusalView {
                operation,
                error: provider_error(
                    denied_message(operation),
                    token_error_code(answer.error),
                    answer@.error_description,
                    answer@.error_uri,
                ),
                denied: Some(answer@),
            },
        ),
    }
}

/// The view of a settled exchange.
pub open spec fn settled_view(result: Result<TokenSuccess, Refusal>) -> Result<
    TokenSuccessView,
    RefusalView,
> {
    match result {
        Ok(token) => Ok(token@),
        Err(refusal) => Err(refusal@),
    }
}

impl Operation {
    fn malformed(&self) -> (message: &'static str)
        ensures
            message@ == malformed_message(*self),
    {
        match self {
            Operation::Issue => "Parse access token response error",
            Operation::Refresh => "Refresh OAuth 2.0 access token error",
        }
    }

    fn denied(&self) -> (message: &'static str)
        ensures
            message@ == denied_message(*self),
    {
        match self {
            Operation::Issue => "Issue access token error",
            Operation::Refresh => "Refresh access token error",
        }
    }

    fn done(&self) -> (message: &'static str)
        ensures
            message@ == done_message(*self),
    {
        match self {
            Operation::Issue => "Access token successfully issued",
            Operation::Refresh => "Access token successfully refreshed",
        }
    }
}

impl Exchanged {
    /// What the end of the exchange means for the command.
    pub fn settle(self, operation: Operation, now: &Timestamp) -> (result: Result<
        TokenSuccess,
        Refusal,
    >)
        ensures
            settled_view(result) == settled(self, operation, now@),
    {
        match self {
            Exchanged::Failed(message) => Err(
                Refusal {
                    operation,
                    error: Error::new(ErrorKind::Transport, message),
                    denied: None,
                },
            ),
            Exchanged::Malformed(cause) => Err(
                Refusal {
                    operation,
                    error: Error::with_cause(
                        ErrorKind::ProtocolViolation,
                        String::from_str(operation.malformed()),
                        cause,
                    ),
                    denied: None,
                },
            ),
            Exchanged::Granted(token) => Ok(token.stamp(now)),
            Exchanged::Denied(answer) => {
                let error = Error::provider(
                    operation.denied(),
                    answer.error.as_str(),
                    &answer.error_description,
                    &answer.error_uri,
                );
                Err(Refusal { operation, error, denied: Some(answer) })
            },
        }
    }
}

impl Refusal {
    /// What the error hook of the operation asks for: something where the
    /// provider answered, nothing where the exchange failed before.
    pub fn hooks(
        &self,
        account: &Account,
        home: &Option<String>,
        environment: &Vec<(String, String)>,
    ) -> (plan: Option<HookPlan>)
        ensures
            match self.denied {
                Some(answer) => plan matches Some(p) && is_hook_plan(
                    p,
                    hooks_of(*account, self.operation).error,
                    error_envs(answer@),
                    text_view(*home),
                    error_variables(answer@),
                    environment.deep_view(),
                ),
                None => plan is None,
            },
    {
        match &self.denied {
            Some(answer) => {
                let plan = match self.operation {
                    Operation::Issue => account.on_issue_access_token.execute_error(
                        answer,
                        home,
                        environment,
                    ),
                    Operation::Refresh => account.on_refresh_access_token.execute_error(
                        answer,
                        home,
                        environment,
                    ),
                };
                Some(plan)
            },
            None => None,
        }
    }
}

/// A token in the hands of an operation.
pub struct Held {
    pub operation: Operation,
    pub token: TokenSuccessView,
}

/// An exchange that is under way: the request was made, the answer is
/// awaited.
pub struct Pending {
    operation: Operation,
}

/// A refreshed token that lacks a refresh token: the stored record may
/// still have one to keep.
pub struct Incomplete {
    token: TokenSuccess,
}

/// A token that the provider granted and that is to be stored.
pub struct Granted {
    operation: Operation,
    token: TokenSuccess,
}

/// A granted token that was stored: its hook and its message are due.
pub struct Stored {
    operation: Operation,
    token: TokenSuccess,
}

/// What became of an exchange.
pub enum Answer {
    /// The token is to be stored.
    Granted(Granted),
    /// The stored record is to be read first, for its refresh token.
    Incomplete(Incomplete),
    /// The command fails, after the error hook where the refusal has one.
    Refused(Refusal),
}

/// Whether `answer` is what the end `exchanged` of an exchange means, when
/// the answer of the provider was read at `now`.
///
/// A token goes on to storage, except that a refreshed token without a
/// refresh token waits for the stored record. Anything else is the refusal
/// that [`settled`] gives.
pub open spec fn is_answer(
    answer: Answer,
    exchanged: Exchanged,
    operation: Operation,
    now: TimestampView,
) -> bool {
    match settled(exchanged, operation, now) {
        Err(refusal) => answer matches Answer::Refused(r) && r@ == refusal,
        Ok(token) => if operation == Operation::Refresh && token.refresh_token is None {
            answer matches Answer::Incomplete(incomplete) && incomplete@ == token
        } else {
            answer matches Answer::Granted(granted) && granted@ == (Held { operation, token })
        },
    }
}

impl Pending {
    /// What the token is asked for.
    pub closed spec fn operation(&self) -> Operation {
        self.operation
    }

    pub(crate) fn new(operation: Operation) -> (pending: Pending)
        ensures
            pending.operation() == operation,
    {
        Pending { operation }
    }

    /// Judges the end of the exchange, of which the answer was read at
    /// `now`. The exchange is over with it: the value is used up.
    pub fn answered(self, exchanged: Exchanged, now: &Timestamp) -> (answer: Answer)
        ensures
            is_answer(answer, exchanged, self.operation(), now@),
    {
        let operation = self.operation;
        match exchanged.settle(operation, now) {
            Err(refusal) => Answer::Refused(refusal),
            Ok(token) => {
                let refresh = match operation {
                    Operation::Refresh => true,
                    Operation::Issue => false,
                };
                if refresh && token.refresh_token.is_none() {
                    Answer::Incomplete(Incomplete { token })
                } else {
                    Answer::Granted(Granted { operation, token })
                }
            },
        }
    }
}

impl View for Incomplete {
    type V = TokenSuccessView;

    closed spec fn view(&self) -> TokenSuccessView {
        self.token@
    }
}

impl Incomplete {
    /// Begins the read of the stored record: finds the backend that holds
    /// it, or fails for an account without one.
    pub fn read(&self, account: &Account) -> (reading: Result<Reading, Error>)
        ensures
            match account.storage.read {
                Storage::Undefined => reading matches Err(e) && e@ == undefined_storage(
                    "Cannot read token: storage not defined"@,
                ),
                Storage::Command => reading matches Ok(r) && r.asked() == Backend::Command,
                Storage::Keyring => reading matches Ok(r) && r.asked() == Backend::Keyring,
            },
    {
        account.storage.read()
    }

    /// Ends the read at `now`: fails as the read fails, and else completes
    /// the token with the refresh token of the record that the backend
    /// gave, as [`Incomplete::complete`] does.
    pub fn stored(self, reading: Reading, reply: ReadReply, now: &Timestamp) -> (granted: Result<
        Granted,
        Error,
    >)
        ensures
            match record_in(reply) {
                Err(error) => granted matches Err(e) && e@ == error,
                Ok(read) => granted matches Ok(g) && g@ == (Held {
                    operation: Operation::Refresh,
                    token: with_previous_refresh_token(self@, read.0.refresh_token),
                }),
            },
    {
        let record = reading.record(reply, now);
        match record {
            Ok(stored) => Ok(self.complete(stored.refresh_token)),
            Err(error) => Err(error),
        }
    }

    /// The token to store: the refreshed token, with the refresh token of
    /// the stored record where the provider sent none. A provider need not
    /// rotate refresh tokens.
    pub fn complete(self, stored: Option<Secret>) -> (granted: Granted)
        ensures
            granted@ == (Held {
                operation: Operation::Refresh,
                token: with_previous_refresh_token(self@, secret_view(stored)),
            }),
    {
        Granted { operation: Operation::Refresh, token: self.token.or_refresh_token(stored) }
    }
}

impl View for Granted {
    type V = Held;

    closed spec fn view(&self) -> Held {
        Held { operation: self.operation, token: self.token@ }
    }
}

impl Granted {
    /// The token.
    pub fn token(&self) -> (token: &TokenSuccess)
        ensures
            token@ == self@.token,
    {
        &self.token
    }

    /// Begins the write of the token to the storage of the account.
    pub fn store(&self, account: &Account) -> (writing: Result<Writing, Error>)
        ensures
            match write_request(account.storage.write, self@.token) {
                Ok(expected) => writing matches Ok(w) && w.asked() == expected.0 && w.json()
                    == expected.1,
                Err(error) => writing matches Err(e) && e@ == error,
            },
    {
        account.storage.write(&self.token)
    }

    /// Ends the write: the token counts as stored where the backend says
    /// so, and the command fails where it does not.
    pub fn stored(self, writing: Writing, reply: WriteReply) -> (stored: Result<Stored, Error>)
        ensures
            match record_written(reply) {
                Ok(_) => stored matches Ok(s) && s@ == self@,
                Err(error) => stored matches Err(e) && e@ == error,
            },
    {
        match writing.written(reply) {
            Ok(_) => Ok(Stored { operation: self.operation, token: self.token }),
            Err(error) => Err(error),
        }
    }
}

impl View for Stored {
    type V = Held;

    closed spec fn view(&self) -> Held {
        Held { operation: self.operation, token: self.token@ }
    }
}

impl Stored {
    /// The token.
    pub fn token(&self) -> (token: &TokenSuccess)
        ensures
            token@ == self@.token,
    {
        &self.token
    }

    /// The token, once the hook has run.
    pub fn into_token(self) -> (token: TokenSuccess)
        ensures
            token@ == self@.token,
    {
        self.token
    }

    /// What the success hook of the operation asks for.
    pub fn hooks(
        &self,
        account: &Account,
        home: &Option<String>,
        environment: &Vec<(String, String)>,
    ) -> (plan: HookPlan)
        ensures
            is_hook_plan(
                plan,
                hooks_of(*account, self@.operation).success,
                success_envs(self@.token),
                text_view(*home),
                success_variables(self@.token),
                environment.deep_view(),
            ),
    {
        match self.operation {
            Operation::Issue => account.on_issue_access_token.execute_success(
                &self.token,
                home,
                environment,
            ),
            Operation::Refresh => account.on_refresh_access_token.execute_success(
                &self.token,
                home,
                environment,
            ),
        }
    }

    /// The message that reports the token.
    pub fn message(&self) -> (message: String)
        ensures
            message@ == success_message(done_message(self@.operation), self@.token.expires_in),
    {
        report_success(self.operation.done(), self.token.expires_in)
    }
}

/// A refresh keeps the refresh token of the stored record where the
/// provider sent none, and takes the new one where the provider sent one.
pub proof fn lemma_refresh_token_kept(token: TokenSuccessView, stored: Option<Seq<char>>)
    ensures
        token.refresh_token is None ==> with_previous_refresh_token(token, stored).refresh_token
            == stored,
        token.refresh_token is Some ==> with_previous_refresh_token(token, stored).refresh_token
            == token.refresh_token,
        with_previous_refresh_token(token, stored).access_token == token.access_token,
{
}

} // verus!
