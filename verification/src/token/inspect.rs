//! Inspecting the stored token.

use vstd::prelude::*;
use vstd::string::*;

use crate::access_token::{
    elapsed_secs, Timestamp, TimestampView, TokenSuccess, TokenSuccessView,
};
use crate::account::Account;
use crate::duration::{format_seconds, human_duration};
use crate::error::Error;
use crate::storage::{
    is_read_at, record_in, undefined_storage, Backend, ReadReply, Reading, Storage,
};

verus! {

/// What `str::to_lowercase` makes of `text`.
pub uninterp spec fn lowercase(text: Seq<char>) -> Seq<char>;

/// Calls `str::to_lowercase`. The contract only names the outcome.
#[verifier::external_body]
fn to_lowercase(text: &str) -> (lower: String)
    ensures
        lower@ == lowercase(text@),
{
    text.to_lowercase()
}

/// Shows what is known about the token of an account.
pub struct InspectTokenCommand;

/// What is known about a token, without the token itself.
pub struct Report {
    pub token: TokenSuccess,
}

/// What a report says of the expiry of a token.
pub enum Expiry {
    /// The record names no lifetime.
    Unknown,
    /// Nothing is left of the lifetime.
    Expired,
    /// The time that is left, in words.
    In(String),
}

/// The mathematical value of an [`Expiry`].
pub enum ExpiryView {
    Unknown,
    Expired,
    In(Seq<char>),
}

impl View for Expiry {
    type V = ExpiryView;

    open spec fn view(&self) -> ExpiryView {
        match *self {
            Expiry::Unknown => ExpiryView::Unknown,
            Expiry::Expired => ExpiryView::Expired,
            Expiry::In(left) => ExpiryView::In(left@),
        }
    }
}

/// The line that tells the age of a token, given the age in words.
pub open spec fn issued_line(age: Option<Seq<char>>) -> Seq<char> {
    match age {
        Some(age) => "\nIssued: "@ + age + " ago"@,
        None => Seq::empty(),
    }
}

/// The line that tells the expiry of a token.
pub open spec fn expiry_line(expiry: ExpiryView) -> Seq<char> {
    match expiry {
        ExpiryView::Unknown => "\nExpired: unknown"@,
        ExpiryView::Expired => "\nExpired: true"@,
        ExpiryView::In(left) => "\nExpires in: "@ + left,
    }
}

/// The line that tells whether there is a refresh token.
pub open spec fn refresh_line(has_refresh_token: bool) -> Seq<char> {
    if has_refresh_token {
        "\nWith refresh token: true"@
    } else {
        "\nWith refresh token: false"@
    }
}

/// The line that tells the scope, where the record names one.
pub open spec fn scope_line(scope: Option<Seq<char>>) -> Seq<char> {
    match scope {
        Some(scope) => "\nWith scope: "@ + scope,
        None => Seq::empty(),
    }
}

/// The text of a report, given the type of the token in lower case and its
/// age in words: the type, then the age, the expiry, whether the token can
/// be refreshed, and the scope.
pub open spec fn composed(
    kind: Seq<char>,
    age: Option<Seq<char>>,
    expiry: ExpiryView,
    has_refresh_token: bool,
    scope: Option<Seq<char>>,
) -> Seq<char> {
    "Token type: "@ + kind + issued_line(age) + expiry_line(expiry) + refresh_line(
        has_refresh_token,
    ) + scope_line(scope)
}

/// The age of a token at `now` in words; none for a token from the future.
pub open spec fn age_in_words(issued_at: TimestampView, now: TimestampView) -> Option<Seq<char>> {
    match elapsed_secs(issued_at, now) {
        Some(elapsed) => Some(human_duration(elapsed as u64)),
        None => None,
    }
}

/// What a report says of a lifetime of which `expires_in` seconds are
/// left.
pub open spec fn expiry_of(expires_in: Option<u64>) -> ExpiryView {
    match expires_in {
        None => ExpiryView::Unknown,
        Some(left) => if left == 0 {
            ExpiryView::Expired
        } else {
            ExpiryView::In(human_duration(left))
        },
    }
}

/// The text of the report on `token`, read at `now`.
pub open spec fn report_text(token: TokenSuccessView, now: TimestampView) -> Seq<char> {
    composed(
        lowercase(token.token_type),
        age_in_words(token.issued_at, now),
        expiry_of(token.expires_in),
        token.refresh_token is Some,
        token.scope,
    )
}

/// An inspection that is under way: the reply of the storage is awaited.
pub struct Inspecting {
    reading: Reading,
}

impl InspectTokenCommand {
    /// Begins the command: finds the backend that holds the record, or
    /// fails for an account without one.
    pub fn execute(self, account: &Account) -> (inspecting: Result<Inspecting, Error>)
        ensures
            match account.storage.read {
                Storage::Undefined => inspecting matches Err(e) && e@ == undefined_storage(
                    "Cannot read token: storage not defined"@,
                ),
                Storage::Command => inspecting matches Ok(i) && i.asked() == Backend::Command,
                Storage::Keyring => inspecting matches Ok(i) && i.asked() == Backend::Keyring,
            },
    {
        match account.storage.read() {
            Ok(reading) => Ok(Inspecting { reading }),
            Err(error) => Err(error),
        }
    }
}

impl Inspecting {
    /// The backend that is asked.
    pub closed spec fn asked(&self) -> Backend {
        self.reading.asked()
    }

    /// The backend to ask for the record.
    pub fn backend(&self) -> (backend: Backend)
        ensures
            backend == self.asked(),
    {
        self.reading.backend()
    }

    /// The report on the record that the backend gave at `now`, or the
    /// failure of the read.
    pub fn read(self, reply: ReadReply, now: &Timestamp) -> (report: Result<Report, Error>)
        ensures
            match record_in(reply) {
                Err(error) => report matches Err(e) && e@ == error,
                Ok(read) => report matches Ok(r) && is_read_at(r.token@, read, now@),
            },
    {
        let record = self.reading.record(reply, now);
        match record {
            Ok(token) => Ok(Report { token }),
            Err(error) => Err(error),
        }
    }
}

impl Report {
    /// The text of a report, given the type of the token in lower case and
    /// its age in words.
    pub fn compose(
        kind: &str,
        age: Option<&str>,
        expiry: &Expiry,
        has_refresh_token: bool,
        scope: Option<&str>,
    ) -> (text: String)
        ensures
            text@ == composed(
                kind@,
                match age {
                    Some(age) => Some(age@),
                    None => None,
                },
                expiry@,
                has_refresh_token,
                match scope {
                    Some(scope) => Some(scope@),
                    None => None,
                },
            ),
    {
        let mut text = String::from_str("Token type: ");
        text.append(kind);
        match age {
            Some(age) => {
                text.append("\nIssued: ");
                text.append(age);
                text.append(" ago");
            },
            None => {},
        }
        match expiry {
            Expiry::Unknown => {
                text.append("\nExpired: unknown");
            },
            Expiry::Expired => {
                text.append("\nExpired: true");
            },
            Expiry::In(left) => {
                text.append("\nExpires in: ");
                text.append(left.as_str());
            },
        }
        if has_refresh_token {
            text.append("\nWith refresh token: true");
        } else {
            text.append("\nWith refresh token: false");
        }
        match scope {
            Some(scope) => {
                text.append("\nWith scope: ");
                text.append(scope);
            },
            None => {},
        }
        text
    }

    /// The text of the report, read at `now`: the type of the token in
    /// lower case, then its age, its expiry, whether it can be refreshed,
    /// and its scope. The token itself is not in it.
    pub fn to_text(&self, now: &Timestamp) -> (text: String)
        ensures
            text@ == report_text(self.token@, now@),
    {
        let kind = to_lowercase(self.token.token_type.as_str());
        let age = match now.elapsed_since(&self.token.issued_at) {
            Some(elapsed) => Some(format_seconds(elapsed)),
            None => None,
        };
        let expiry = match self.token.expires_in {
            None => Expiry::Unknown,
            Some(left) => if left == 0 {
                Expiry::Expired
            } else {
                Expiry::In(format_seconds(left))
            },
        };
        let age_words = match &age {
            Some(age) => Some(age.as_str()),
            None => None,
        };
        let scope = match &self.token.scope {
            Some(scope) => Some(scope.as_str()),
            None => None,
        };
        Report::compose(
            kind.as_str(),
            age_words,
            &expiry,
            self.token.refresh_token.is_some(),
            scope,
        )
    }
}

} // verus!
