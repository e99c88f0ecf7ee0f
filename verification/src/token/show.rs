//! Showing the access token.

use vstd::prelude::*;
use vstd::string::*;

use crate::access_token::{Timestamp, TokenSuccess, TokenSuccessView};
use crate::account::Account;
use crate::error::Error;
use crate::secret::Secret;
use crate::storage::{
    is_read_at, record_in, undefined_storage, Backend, ReadReply, Reading, Storage,
};

verus! {

/// Shows the access token of an account.
pub struct ShowTokenCommand {
    /// Whether an expired token is refreshed first, whatever the account
    /// says.
    pub auto_refresh: bool,
}

/// The access token, laid open for output.
pub struct AccessToken {
    pub access_token: String,
}

/// What showing the stored record begins with.
pub enum Shown {
    /// The token of the record is shown.
    Token(AccessToken),
    /// The record has expired: a refresh with this refresh token comes
    /// first, and the token that it brings is shown.
    Refresh(Secret),
}

/// Whether the stored record is refreshed before it is shown: refreshing is
/// switched on, the record has a refresh token, and nothing is left of its
/// lifetime.
pub open spec fn refreshes_first(auto_refresh: bool, token: TokenSuccessView) -> bool {
    auto_refresh && token.refresh_token is Some && token.expires_in == Some(0u64)
}

/// Whether `shown` is what the stored record `token` calls for: a refresh
/// with its refresh token where [`refreshes_first`] holds, and its access
/// token where not.
pub open spec fn is_shown(shown: Shown, auto_refresh: bool, token: TokenSuccessView) -> bool {
    if refreshes_first(auto_refresh, token) {
        shown matches Shown::Refresh(refresh_token) && Some(refresh_token@) == token.refresh_token
    } else {
        shown matches Shown::Token(access_token) && access_token.access_token@
            == token.access_token
    }
}

impl AccessToken {
    /// The token of `token`, laid open.
    pub fn of(token: &TokenSuccess) -> (shown: AccessToken)
        ensures
            shown.access_token@ == token@.access_token,
    {
        AccessToken::disclose(&token.access_token)
    }

    /// Lays an access token open. This is where the token leaves its
    /// wrapper: call it only for a token that is about to be shown.
    pub fn disclose(access_token: &Secret) -> (shown: AccessToken)
        ensures
            shown.access_token@ == access_token@,
    {
        AccessToken { access_token: String::from_str(access_token.expose()) }
    }

    /// The text that shows the token: the token itself.
    pub fn to_text(&self) -> (text: String)
        ensures
            text@ == self.access_token@,
    {
        self.access_token.clone()
    }
}

/// A show that is under way: the reply of the storage is awaited.
pub struct Showing {
    reading: Reading,
    auto_refresh: bool,
}

impl ShowTokenCommand {
    /// Begins the command: finds the backend that holds the record.
    ///
    /// Fails for an account without a backend to read from, before anything
    /// else happens. An expired record will be refreshed where the command
    /// or the account asks for it.
    pub fn execute(self, account: &Account) -> (showing: Result<Showing, Error>)
        ensures
            match account.storage.read {
                Storage::Undefined => showing matches Err(e) && e@ == undefined_storage(
                    "Cannot read token: storage not defined"@,
                ),
                Storage::Command => showing matches Ok(s) && s.asked() == Backend::Command
                    && s.auto_refresh() == (self.auto_refresh || account.auto_refresh),
                Storage::Keyring => showing matches Ok(s) && s.asked() == Backend::Keyring
                    && s.auto_refresh() == (self.auto_refresh || account.auto_refresh),
            },
    {
        match account.storage.read() {
            Ok(reading) => Ok(
                Showing { reading, auto_refresh: self.auto_refresh || account.auto_refresh },
            ),
            Err(error) => Err(error),
        }
    }

    /// Decides what to do with the stored record `token`. The access token
    /// is laid open only where it is shown.
    pub fn shown(auto_refresh: bool, token: TokenSuccess) -> (shown: Shown)
        ensures
            is_shown(shown, auto_refresh, token@),
    {
        if auto_refresh && token.is_expired() {
            match token.refresh_token {
                Some(refresh_token) => Shown::Refresh(refresh_token),
                None => Shown::Token(AccessToken::disclose(&token.access_token)),
            }
        } else {
            Shown::Token(AccessToken::disclose(&token.access_token))
        }
    }
}

impl Showing {
    /// The backend that is asked.
    pub closed spec fn asked(&self) -> Backend {
        self.reading.asked()
    }

    /// Whether an expired record is refreshed first.
    pub closed spec fn auto_refresh(&self) -> bool {
        self.auto_refresh
    }

    /// The backend to ask for the record.
    pub fn backend(&self) -> (backend: Backend)
        ensures
            backend == self.asked(),
    {
        self.reading.backend()
    }

    /// Judges the reply of the backend at `now`: fails as the read fails,
    /// and else decides what to do with the record, as
    /// [`ShowTokenCommand::shown`] does.
    pub fn read(self, reply: ReadReply, now: &Timestamp) -> (shown: Result<Shown, Error>)
        ensures
            match record_in(reply) {
                Err(error) => shown matches Err(e) && e@ == error,
                Ok(read) => {
                    &&& shown matches Ok(s)
                    &&& exists|token: TokenSuccessView|
                        #[trigger] is_read_at(token, read, now@) && is_shown(
                            s,
                            self.auto_refresh(),
                            token,
                        )
                },
            },
    {
        let record = self.reading.record(reply, now);
        match record {
            Ok(token) => Ok(ShowTokenCommand::shown(self.auto_refresh, token)),
            Err(error) => Err(error),
        }
    }
}

} // verus!
