//! Where the token record of an account is kept.
//!
//! The backends are an external command, the keyring of the system, or
//! none. Nothing here runs a command or opens a keyring: the functions say
//! what to ask of a backend and what its reply means.

use secrecy::ExposeSecret;
use vstd::prelude::*;
use vstd::string::*;
use vstd::utf8::*;

use crate::access_token::{
    stamped, synced, Timestamp, TimestampView, TokenSuccess, TokenSuccessView,
};
use crate::error::{caused_error, plain_error, Error, ErrorKind, ErrorView};
use crate::secret::Secret;
use crate::text::{lossy_text, utf8_lossy};

verus! {

/// A storage backend.
#[derive(Clone, Copy, Debug, PartialEq, Eq, Structural)]
pub enum Storage {
    /// No backend: every read and every write fails.
    Undefined,
    /// An external command that prints the record, or reads it on its
    /// standard input.
    Command,
    /// An entry of the keyring of the system.
    Keyring,
}

/// A backend that can be asked.
#[derive(Clone, Copy, Debug, PartialEq, Eq, Structural)]
pub enum Backend {
    /// An external command.
    Command,
    /// The keyring of the system.
    Keyring,
}

/// The backends of an account.
#[derive(Clone, Copy, Debug, PartialEq, Eq, Structural)]
pub struct Storages {
    /// Where the record is read from.
    pub read: Storage,
    /// Where the record is written to.
    pub write: Storage,
}

/// What came of asking a backend.
pub enum Reply<T> {
    /// The request could not be carried out: the message of the I/O error.
    Io(String),
    /// The backend refused the request before any I/O: its message.
    Refused(String),
    /// The request was carried out.
    Done(T),
}

/// What a finished command left behind.
pub struct CommandOutput {
    /// Whether the command exited with status zero.
    pub success: bool,
    /// What it printed on its standard output.
    pub stdout: Vec<u8>,
    /// What it printed on its standard error.
    pub stderr: Vec<u8>,
}

/// What a command said when it failed: its standard output, or its standard
/// error where it printed nothing there.
pub open spec fn complaint(stdout: Seq<u8>, stderr: Seq<u8>) -> Seq<u8> {
    if stdout.len() == 0 {
        stderr
    } else {
        stdout
    }
}

impl CommandOutput {
    /// What the command said when it failed: its standard output, or its
    /// standard error where it printed nothing there.
    pub fn complaint(self) -> (said: Vec<u8>)
        ensures
            said@ == complaint(self.stdout@, self.stderr@),
    {
        if self.stdout.len() == 0 {
            self.stderr
        } else {
            self.stdout
        }
    }
}

/// What to write, and where.
pub struct WriteRequest {
    /// The backend to hand the record to.
    pub backend: Backend,
    /// The record as JSON.
    pub json: String,
}

/// What `io_oauth` and `serde_json` serialize the record `token` to, or why
/// they do not: the message of their error, or none where the time of issue
/// of the record lies beyond what the clock of the system can hold.
pub uninterp spec fn token_json(token: TokenSuccessView) -> Result<Seq<char>, Option<Seq<char>>>;

/// What `io_oauth` and `serde_json` read from the JSON record `bytes`: the
/// record, and whether it names its time of issue; or the message of their
/// error. Of a record that names no time of issue, the time of issue here
/// says nothing: such a record is stamped with the clock when it is read.
pub uninterp spec fn token_record(bytes: Seq<u8>) -> Result<(TokenSuccessView, bool), Seq<char>>;

/// Calls the `TryFrom<&[u8]>` impl of `io_oauth`'s
/// `IssueAccessTokenSuccessParams`, which reads a JSON record, and moves the
/// fields over. Whether it succeeds, and every field but the time of issue,
/// depends on the bytes alone and has a name. The time of issue is that of
/// the record where the record names one, and the current time otherwise.
#[verifier::external_body]
fn token_from_json(bytes: &[u8]) -> (parsed: Result<TokenSuccess, String>)
    ensures
        match token_record(bytes@) {
            Err(message) => parsed matches Err(m) && m@ == message,
            Ok(read) => {
                &&& parsed matches Ok(token)
                &&& stamped(token@, read.0.issued_at) == read.0
                &&& read.1 ==> token@ == read.0
            },
        },
{
    match io_oauth::v2_0::issue_access_token::IssueAccessTokenSuccessParams::try_from(bytes) {
        Ok(params) => {
            let since = params.issued_at.duration_since(std::time::UNIX_EPOCH).unwrap_or_default();
            Ok(TokenSuccess {
                access_token: Secret { text: params.access_token.expose_secret().to_owned() },
                token_type: params.token_type,
                expires_in: params.expires_in.map(|secs| secs as u64),
                refresh_token: params.refresh_token.map(|token| Secret { text: token.expose_secret().to_owned() }),
                scope: params.scope,
                issued_at: Timestamp { secs: since.as_secs(), nanos: since.subsec_nanos() },
            })
        },
        Err(err) => Err(err.to_string()),
    }
}

/// Moves the fields into `io_oauth`'s `IssueAccessTokenSuccessParams` and
/// calls its `TryFrom` impl for `String`, which writes a JSON record or
/// fails with an error of `serde_json`, whose message is handed on. The
/// time of issue becomes a `SystemTime` on the way, which fails without a
/// message where the clock of the system cannot hold it. The contract only
/// names the outcome.
#[verifier::external_body]
fn token_to_json(token: &TokenSuccess) -> (json: Result<String, Option<String>>)
    ensures
        match token_json(token@) {
            Ok(text) => json matches Ok(j) && j@ == text,
            Err(Some(message)) => json matches Err(Some(m)) && m@ == message,
            Err(None) => json matches Err(None),
        },
{
    let since = std::time::Duration::new(token.issued_at.secs, token.issued_at.nanos);
    let issued_at = std::time::UNIX_EPOCH.checked_add(since).ok_or(None)?;
    let params = io_oauth::v2_0::issue_access_token::IssueAccessTokenSuccessParams {
        access_token: token.access_token.text.as_str().into(),
        token_type: token.token_type.clone(),
        expires_in: token.expires_in.map(|secs| secs as usize),
        refresh_token: token.refresh_token.as_ref().map(|token| token.text.as_str().into()),
        scope: token.scope.clone(),
        issued_at,
    };
    String::try_from(&params).map_err(|err| Some(err.to_string()))
}

/// The failure of a read or write on a backend that is not there.
pub open spec fn undefined_storage(message: Seq<char>) -> ErrorView {
    plain_error(ErrorKind::Configuration, message)
}

/// What a record that was found in a backend becomes: the record with its
/// lifetime brought up to `now`, or a failure under the message `context`
/// where the record could not be read.
pub open spec fn record_read(
    parsed: Result<TokenSuccessView, Seq<char>>,
    context: Seq<char>,
    now: TimestampView,
) -> Result<TokenSuccessView, ErrorView> {
    match parsed {
        Ok(token) => Ok(synced(token, now)),
        Err(cause) => Err(caused_error(ErrorKind::Backend, context, cause)),
    }
}

/// What the reply of a command to a write means.
pub open spec fn command_write(reply: Reply<CommandOutput>) -> Result<(), ErrorView> {
    match reply {
        Reply::Io(message) => Err(plain_error(ErrorKind::Backend, message@)),
        Reply::Refused(cause) => Err(
            caused_error(
                ErrorKind::Backend,
                "Spawn command to save OAuth 2.0 access token error"@,
                cause@,
            ),
        ),
        Reply::Done(output) => if output.success {
            Ok(())
        } else if complaint(output.stdout@, output.stderr@).len() == 0 {
            Err(plain_error(ErrorKind::Backend, "Write access token via command error"@))
        } else {
            Err(
                caused_error(
                    ErrorKind::Backend,
                    "Write access token via command error"@,
                    utf8_lossy(complaint(output.stdout@, output.stderr@)),
                ),
            )
        },
    }
}

/// What the reply of the keyring to a write means.
pub open spec fn keyring_write(reply: Reply<()>) -> Result<(), ErrorView> {
    match reply {
        Reply::Io(message) => Err(plain_error(ErrorKind::Backend, message@)),
        Reply::Refused(cause) => Err(
            caused_error(
                ErrorKind::Backend,
                "Write keyring to save OAuth 2.0 access token error"@,
                cause@,
            ),
        ),
        Reply::Done(_) => Ok(()),
    }
}

/// The bytes of the record in the reply of a command to a read, or the
/// failure that the reply stands for.
pub open spec fn command_read(reply: Reply<CommandOutput>) -> Result<Seq<u8>, ErrorView> {
    match reply {
        Reply::Io(message) => Err(plain_error(ErrorKind::Backend, message@)),
        Reply::Refused(cause) => Err(
            caused_error(
                ErrorKind::Backend,
                "Spawn command to read OAuth 2.0 access token error"@,
                cause@,
            ),
        ),
        Reply::Done(output) => if output.success {
            Ok(output.stdout@)
        } else {
            Err(
                caused_error(
                    ErrorKind::Backend,
                    "Read access token via command error"@,
                    utf8_lossy(complaint(output.stdout@, output.stderr@)),
                ),
            )
        },
    }
}

/// The secret in the reply of the keyring to a read, or the failure that
/// the reply stands for.
pub open spec fn keyring_read(reply: Reply<Secret>) -> Result<Seq<char>, ErrorView> {
    match reply {
        Reply::Io(message) => Err(plain_error(ErrorKind::Backend, message@)),
        Reply::Refused(cause) => Err(
            caused_error(
                ErrorKind::Backend,
                "Read keyring to get OAuth 2.0 access token error"@,
                cause@,
            ),
        ),
        Reply::Done(secret) => Ok(secret@),
    }
}

/// The view of a read's result.
pub open spec fn read_view(result: Result<TokenSuccess, Error>) -> Result<TokenSuccessView, ErrorView> {
    match result {
        Ok(token) => Ok(token@),
        Err(error) => Err(error@),
    }
}

/// The view of a parsed record.
pub open spec fn parsed_view(parsed: Result<TokenSuccess, String>) -> Result<TokenSuccessView, Seq<char>> {
    match parsed {
        Ok(token) => Ok(token@),
        Err(message) => Err(message@),
    }
}

/// The view of a record as JSON, or of the reason why there is none.
pub open spec fn json_view(json: Result<String, Option<String>>) -> Result<
    Seq<char>,
    Option<Seq<char>>,
> {
    match json {
        Ok(text) => Ok(text@),
        Err(Some(message)) => Err(Some(message@)),
        Err(None) => Err(None),
    }
}

/// What a write begins with, given the record as JSON: the JSON for the
/// backend of the account.
///
/// It fails for an account without a backend, whatever the JSON is; with
/// the message of the serializer where there is no JSON; and for a record
/// with a time of issue that the clock of the system cannot hold.
pub open spec fn write_request_given(
    storage: Storage,
    json: Result<Seq<char>, Option<Seq<char>>>,
) -> Result<(Backend, Seq<char>), ErrorView> {
    match storage {
        Storage::Undefined => Err(
            undefined_storage("Cannot write token: storage not defined"@),
        ),
        _ => match json {
            Ok(json) => Ok(
                (
                    if storage == Storage::Command {
                        Backend::Command
                    } else {
                        Backend::Keyring
                    },
                    json,
                ),
            ),
            Err(Some(message)) => Err(plain_error(ErrorKind::Backend, message)),
            Err(None) => Err(
                plain_error(ErrorKind::Backend, "Cannot write token: time of issue out of range"@),
            ),
        },
    }
}

/// What a write of the record `token` begins with.
pub open spec fn write_request(storage: Storage, token: TokenSuccessView) -> Result<
    (Backend, Seq<char>),
    ErrorView,
> {
    write_request_given(storage, token_json(token))
}

impl Storages {
    /// Begins a read: finds the backend to ask for the record, or fails
    /// for an account without one.
    pub fn read(&self) -> (reading: Result<Reading, Error>)
        ensures
            match self.read {
                Storage::Undefined => reading matches Err(e) && e@ == undefined_storage(
                    "Cannot read token: storage not defined"@,
                ),
                Storage::Command => reading matches Ok(r) && r.asked() == Backend::Command,
                Storage::Keyring => reading matches Ok(r) && r.asked() == Backend::Keyring,
            },
    {
        match self.read {
            Storage::Undefined => Err(
                Error::new(
                    ErrorKind::Configuration,
                    String::from_str("Cannot read token: storage not defined"),
                ),
            ),
            Storage::Command => Ok(Reading { backend: Backend::Command }),
            Storage::Keyring => Ok(Reading { backend: Backend::Keyring }),
        }
    }

    /// The record that a command printed, with its lifetime brought up to
    /// `now`, or the failure that the reply stands for.
    ///
    /// Where the command succeeded, its output is read as JSON: the read
    /// fails where the output holds no record, and else gives the record of
    /// the output.
    pub fn read_command(reply: Reply<CommandOutput>, now: &Timestamp) -> (result: Result<
        TokenSuccess,
        Error,
    >)
        ensures
            is_record_read(read_view(result), ReadReply::Command(reply), now@),
    {
        let bytes = match Storages::command_record(reply) {
            Ok(bytes) => bytes,
            Err(error) => {
                return Err(error);
            },
        };
        Storages::read_json(bytes.as_slice(), "Parse access token from command error", now)
    }

    /// The record that the JSON bytes `bytes` hold, with its lifetime
    /// brought up to `now`; or the failure, under the message `context`, of
    /// bytes that hold none.
    pub fn read_json(bytes: &[u8], context: &str, now: &Timestamp) -> (result: Result<
        TokenSuccess,
        Error,
    >)
        ensures
            is_record_of(read_view(result), bytes@, context@, now@),
    {
        let parsed = token_from_json(bytes);
        proof {
            let outcome = parsed_view(parsed);
            if token_record(bytes@) is Ok && outcome is Ok {
                let read = token_record(bytes@)->Ok_0;
                let token = outcome->Ok_0;
                assert(stamped(read.0, token.issued_at) == token);
            }
        }
        Storages::record(parsed, context, now)
    }

    /// The record that the keyring held, with its lifetime brought up to
    /// `now`, or the failure that the reply stands for.
    ///
    /// Where the keyring gave a secret, it is read as JSON: the read fails
    /// where the secret holds no record, and else gives the record of the
    /// secret.
    pub fn read_keyring(reply: Reply<Secret>, now: &Timestamp) -> (result: Result<
        TokenSuccess,
        Error,
    >)
        ensures
            is_record_read(read_view(result), ReadReply::Keyring(reply), now@),
    {
        let secret = match Storages::keyring_record(reply) {
            Ok(secret) => secret,
            Err(error) => {
                return Err(error);
            },
        };
        Storages::read_json(
            secret.expose().as_bytes(),
            "Parse access token from keyring error",
            now,
        )
    }

    /// The bytes to read the record from, out of the reply of a command.
    pub fn command_record(reply: Reply<CommandOutput>) -> (bytes: Result<Vec<u8>, Error>)
        ensures
            match command_read(reply) {
                Ok(expected) => bytes matches Ok(b) && b@ == expected,
                Err(error) => bytes matches Err(e) && e@ == error,
            },
    {
        match reply {
            Reply::Io(message) => Err(Error::new(ErrorKind::Backend, message)),
            Reply::Refused(cause) => Err(
                Error::with_cause(
                    ErrorKind::Backend,
                    String::from_str("Spawn command to read OAuth 2.0 access token error"),
                    cause,
                ),
            ),
            Reply::Done(output) => {
                if output.success {
                    Ok(output.stdout)
                } else {
                    let said = output.complaint();
                    Err(
                        Error::with_cause(
                            ErrorKind::Backend,
                            String::from_str("Read access token via command error"),
                            lossy_text(said.as_slice()),
                        ),
                    )
                }
            },
        }
    }

    /// The secret to read the record from, out of the reply of the keyring.
    pub fn keyring_record(reply: Reply<Secret>) -> (secret: Result<Secret, Error>)
        ensures
            match keyring_read(reply) {
                Ok(expected) => secret matches Ok(s) && s@ == expected,
                Err(error) => secret matches Err(e) && e@ == error,
            },
    {
        match reply {
            Reply::Io(message) => Err(Error::new(ErrorKind::Backend, message)),
            Reply::Refused(cause) => Err(
                Error::with_cause(
                    ErrorKind::Backend,
                    String::from_str("Read keyring to get OAuth 2.0 access token error"),
                    cause,
                ),
            ),
            Reply::Done(secret) => Ok(secret),
        }
    }

    /// What a record that was found in a backend becomes: the record with
    /// its lifetime brought up to `now`, or a failure under the message
    /// `context` where the record could not be read.
    pub fn record(parsed: Result<TokenSuccess, String>, context: &str, now: &Timestamp) -> (result:
        Result<TokenSuccess, Error>)
        ensures
            read_view(result) == record_read(parsed_view(parsed), context@, now@),
    {
        match parsed {
            Ok(token) => {
                let mut token = token;
                token.sync_expires_in(now);
                Ok(token)
            },
            Err(cause) => Err(
                Error::with_cause(ErrorKind::Backend, String::from_str(context), cause),
            ),
        }
    }

    /// Begins a write: says what to hand to which backend in order to
    /// store `token`, or fails for an account without a backend.
    pub fn write(&self, token: &TokenSuccess) -> (writing: Result<Writing, Error>)
        ensures
            match write_request(self.write, token@) {
                Ok(expected) => writing matches Ok(w) && w.asked() == expected.0 && w.json()
                    == expected.1,
                Err(error) => writing matches Err(e) && e@ == error,
            },
    {
        match self.write {
            Storage::Undefined => Err(
                Error::new(
                    ErrorKind::Configuration,
                    String::from_str("Cannot write token: storage not defined"),
                ),
            ),
            _ => self.write_json(token_to_json(token)),
        }
    }

    /// Begins a write, given the record as JSON or the reason why there is
    /// none.
    pub fn write_json(&self, json: Result<String, Option<String>>) -> (writing: Result<
        Writing,
        Error,
    >)
        ensures
            match write_request_given(self.write, json_view(json)) {
                Ok(expected) => writing matches Ok(w) && w.asked() == expected.0 && w.json()
                    == expected.1,
                Err(error) => writing matches Err(e) && e@ == error,
            },
    {
        let backend = match self.write {
            Storage::Undefined => {
                return Err(
                    Error::new(
                        ErrorKind::Configuration,
                        String::from_str("Cannot write token: storage not defined"),
                    ),
                );
            },
            Storage::Command => Backend::Command,
            Storage::Keyring => Backend::Keyring,
        };
        match json {
            Ok(json) => Ok(Writing { request: WriteRequest { backend, json } }),
            Err(Some(message)) => Err(Error::new(ErrorKind::Backend, message)),
            Err(None) => Err(
                Error::new(
                    ErrorKind::Backend,
                    String::from_str("Cannot write token: time of issue out of range"),
                ),
            ),
        }
    }

    /// What the reply of a command to a write means.
    pub fn written_by_command(reply: Reply<CommandOutput>) -> (result: Result<(), Error>)
        ensures
            match command_write(reply) {
                Ok(_) => result is Ok,
                Err(error) => result matches Err(e) && e@ == error,
            },
    {
        match reply {
            Reply::Io(message) => Err(Error::new(ErrorKind::Backend, message)),
            Reply::Refused(cause) => Err(
                Error::with_cause(
                    ErrorKind::Backend,
                    String::from_str("Spawn command to save OAuth 2.0 access token error"),
                    cause,
                ),
            ),
            Reply::Done(output) => {
                if output.success {
                    return Ok(());
                }
                let message = String::from_str("Write access token via command error");
                let said = output.complaint();
                if said.len() == 0 {
                    Err(Error::new(ErrorKind::Backend, message))
                } else {
                    Err(
                        Error::with_cause(
                            ErrorKind::Backend,
                            message,
                            lossy_text(said.as_slice()),
                        ),
                    )
                }
            },
        }
    }

    /// What the reply of the keyring to a write means.
    pub fn written_by_keyring(reply: Reply<()>) -> (result: Result<(), Error>)
        ensures
            match keyring_write(reply) {
                Ok(_) => result is Ok,
                Err(error) => result matches Err(e) && e@ == error,
            },
    {
        match reply {
            Reply::Io(message) => Err(Error::new(ErrorKind::Backend, message)),
            Reply::Refused(cause) => Err(
                Error::with_cause(
                    ErrorKind::Backend,
                    String::from_str("Write keyring to save OAuth 2.0 access token error"),
                    cause,
                ),
            ),
            Reply::Done(_) => Ok(()),
        }
    }
}

/// The reply of the backend that was asked for the record.
pub enum ReadReply {
    Command(Reply<CommandOutput>),
    Keyring(Reply<Secret>),
}

/// The reply of the backend that was handed the record.
pub enum WriteReply {
    Command(Reply<CommandOutput>),
    Keyring(Reply<()>),
}

/// The record that JSON bytes hold, and whether it names its time of issue;
/// or the failure, under the message `context`, of bytes that hold none.
pub open spec fn record_of(bytes: Seq<u8>, context: Seq<char>) -> Result<
    (TokenSuccessView, bool),
    ErrorView,
> {
    match token_record(bytes) {
        Ok(read) => Ok(read),
        Err(cause) => Err(caused_error(ErrorKind::Backend, context, cause)),
    }
}

/// The record that the reply to a read holds, and whether it names its time
/// of issue; or the failure that the reply stands for.
///
/// A reply without a record is the failure that [`command_read`] or
/// [`keyring_read`] gives. The output of a command and the secret of the
/// keyring are read as JSON.
pub open spec fn record_in(reply: ReadReply) -> Result<(TokenSuccessView, bool), ErrorView> {
    match reply {
        ReadReply::Command(reply) => match command_read(reply) {
            Err(error) => Err(error),
            Ok(bytes) => record_of(bytes, "Parse access token from command error"@),
        },
        ReadReply::Keyring(reply) => match keyring_read(reply) {
            Err(error) => Err(error),
            Ok(secret) => record_of(encode_utf8(secret), "Parse access token from keyring error"@),
        },
    }
}

/// Whether `token` is the record `read` as a read at `now` hands it out:
/// the record with its lifetime brought up to `now` from its time of
/// issue. That time is the record's own where it names one; a record that
/// names none is stamped with the clock, so its time is left open.
pub open spec fn is_read_at(
    token: TokenSuccessView,
    read: (TokenSuccessView, bool),
    now: TimestampView,
) -> bool {
    exists|at: TimestampView|
        token == synced(#[trigger] stamped(read.0, at), now) && (read.1 ==> at
            == read.0.issued_at)
}

/// Whether `result` is what JSON bytes that a backend gave mean at `now`.
pub open spec fn is_record_of(
    result: Result<TokenSuccessView, ErrorView>,
    bytes: Seq<u8>,
    context: Seq<char>,
    now: TimestampView,
) -> bool {
    match record_of(bytes, context) {
        Err(error) => result == Err::<TokenSuccessView, ErrorView>(error),
        Ok(read) => result matches Ok(token) && is_read_at(token, read, now),
    }
}

/// Whether `result` is what the reply to a read means at `now`: the failure
/// of [`record_in`], or its record as a read at `now` hands it out.
pub open spec fn is_record_read(
    result: Result<TokenSuccessView, ErrorView>,
    reply: ReadReply,
    now: TimestampView,
) -> bool {
    match record_in(reply) {
        Err(error) => result == Err::<TokenSuccessView, ErrorView>(error),
        Ok(read) => result matches Ok(token) && is_read_at(token, read, now),
    }
}

/// A record that names its time of issue is read exactly: nothing of the
/// result is left open.
pub proof fn lemma_read_of_stamped_record(
    token: TokenSuccessView,
    read: TokenSuccessView,
    now: TimestampView,
)
    requires
        is_read_at(token, (read, true), now),
    ensures
        token == synced(read, now),
{
    let at = choose|at: TimestampView|
        token == synced(#[trigger] stamped(read, at), now) && at == read.issued_at;
    assert(stamped(read, at) == read);
}

/// Whatever the clock says, a read changes nothing of a record but its
/// lifetime, and its time of issue where the record names none.
pub proof fn lemma_read_keeps_the_tokens(
    token: TokenSuccessView,
    read: (TokenSuccessView, bool),
    now: TimestampView,
)
    requires
        is_read_at(token, read, now),
    ensures
        token.access_token == read.0.access_token,
        token.token_type == read.0.token_type,
        token.refresh_token == read.0.refresh_token,
        token.scope == read.0.scope,
        token.expires_in is Some <==> read.0.expires_in is Some,
        token.expires_in matches Some(left) ==> left <= read.0.expires_in->Some_0,
{
}

/// What the reply to a write means.
pub open spec fn record_written(reply: WriteReply) -> Result<(), ErrorView> {
    match reply {
        WriteReply::Command(reply) => command_write(reply),
        WriteReply::Keyring(reply) => keyring_write(reply),
    }
}

/// A read that is under way: the backend was found, its reply is awaited.
pub struct Reading {
    backend: Backend,
}

/// A write that is under way: the request was made, the reply of the
/// backend is awaited.
pub struct Writing {
    request: WriteRequest,
}

impl Reading {
    /// The backend that is asked.
    pub closed spec fn asked(&self) -> Backend {
        self.backend
    }

    /// The backend to ask.
    pub fn backend(&self) -> (backend: Backend)
        ensures
            backend == self.asked(),
    {
        self.backend
    }

    /// The record that the backend gave, with its lifetime brought up to
    /// `now`, or the failure that its reply stands for.
    pub fn record(self, reply: ReadReply, now: &Timestamp) -> (result: Result<TokenSuccess, Error>)
        ensures
            is_record_read(read_view(result), reply, now@),
    {
        match reply {
            ReadReply::Command(reply) => Storages::read_command(reply, now),
            ReadReply::Keyring(reply) => Storages::read_keyring(reply, now),
        }
    }
}

impl Writing {
    /// The backend that is handed the record.
    pub closed spec fn asked(&self) -> Backend {
        self.request.backend
    }

    /// The JSON that is handed over.
    pub closed spec fn json(&self) -> Seq<char> {
        self.request.json@
    }

    /// What to hand to which backend.
    pub fn request(&self) -> (request: &WriteRequest)
        ensures
            request.backend == self.asked(),
            request.json@ == self.json(),
    {
        &self.request
    }

    /// What the reply of the backend means.
    pub fn written(self, reply: WriteReply) -> (result: Result<(), Error>)
        ensures
            match record_written(reply) {
                Ok(_) => result is Ok,
                Err(error) => result matches Err(e) && e@ == error,
            },
    {
        match reply {
            WriteReply::Command(reply) => Storages::written_by_command(reply),
            WriteReply::Keyring(reply) => Storages::written_by_keyring(reply),
        }
    }
}

} // verus!
