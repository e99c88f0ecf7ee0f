//! The failures that end a command.

use vstd::prelude::*;
use vstd::string::*;

verus! {

/// The class of a failure.
#[derive(Clone, Copy, Debug, PartialEq, Eq, Structural)]
pub enum ErrorKind {
    /// The account lacks what the command needs (a storage backend, a TLS
    /// backend, a secret, a usable endpoint).
    Configuration,
    /// A message of the flow is malformed or does not belong to the flow.
    ProtocolViolation,
    /// The provider answered with an error code.
    Provider,
    /// The connection could not be opened or used.
    Transport,
    /// A storage backend failed.
    Backend,
}

/// A failure: what went wrong, and the underlying cause when there is one.
#[derive(Debug)]
pub struct Error {
    pub kind: ErrorKind,
    /// The outermost message.
    pub message: String,
    /// The message of the cause the outermost message was put around.
    pub cause: Option<String>,
}

/// The mathematical value of an [`Error`].
pub struct ErrorView {
    pub kind: ErrorKind,
    pub message: Seq<char>,
    pub cause: Option<Seq<char>>,
}

impl View for Error {
    type V = ErrorView;

    open spec fn view(&self) -> ErrorView {
        ErrorView {
            kind: self.kind,
            message: self.message@,
            cause: match self.cause {
                Some(cause) => Some(cause@),
                None => None,
            },
        }
    }
}

/// The failure of class `kind` that says `message` and has no cause.
pub open spec fn plain_error(kind: ErrorKind, message: Seq<char>) -> ErrorView {
    ErrorView { kind, message, cause: None }
}

/// The failure of class `kind` that says `message` about `cause`.
pub open spec fn caused_error(kind: ErrorKind, message: Seq<char>, cause: Seq<char>) -> ErrorView {
    ErrorView { kind, message, cause: Some(cause) }
}

/// The failure that reports an error code of the provider.
///
/// The message is `what`, then the code in brackets. The cause is the
/// description, the URI, or both with `": "` between them, as far as the
/// provider sent them.
pub open spec fn provider_error(
    what: Seq<char>,
    code: Seq<char>,
    description: Option<Seq<char>>,
    uri: Option<Seq<char>>,
) -> ErrorView {
    ErrorView {
        kind: ErrorKind::Provider,
        message: what + " (code "@ + code + ")"@,
        cause: match (description, uri) {
            (None, None) => None,
            (Some(description), None) => Some(description),
            (None, Some(uri)) => Some(uri),
            (Some(description), Some(uri)) => Some(description + ": "@ + uri),
        },
    }
}

impl Error {
    /// The failure that reports an error code of the provider.
    pub fn provider(what: &str, code: &str, description: &Option<String>, uri: &Option<String>) -> (error:
        Error)
        ensures
            error@ == provider_error(
                what@,
                code@,
                match *description {
                    Some(text) => Some(text@),
                    None => None,
                },
                match *uri {
                    Some(text) => Some(text@),
                    None => None,
                },
            ),
    {
        let mut message = String::from_str(what);
        message.append(" (code ");
        message.append(code);
        message.append(")");
        let cause = match (description, uri) {
            (None, None) => None,
            (Some(description), None) => Some(description.clone()),
            (None, Some(uri)) => Some(uri.clone()),
            (Some(description), Some(uri)) => {
                let mut cause = description.clone();
                cause.append(": ");
                cause.append(uri.as_str());
                Some(cause)
            },
        };
        Error { kind: ErrorKind::Provider, message, cause }
    }

    /// A failure without a cause.
    pub fn new(kind: ErrorKind, message: String) -> (error: Error)
        ensures
            error@ == plain_error(kind, message@),
    {
        Error { kind, message, cause: None }
    }

    /// A failure that puts `message` around `cause`.
    pub fn with_cause(kind: ErrorKind, message: String, cause: String) -> (error: Error)
        ensures
            error@ == caused_error(kind, message@, cause@),
    {
        Error { kind, message, cause: Some(cause) }
    }

    /// The text of the whole chain: the message, then the cause after `": "`.
    pub open spec fn chain(error: ErrorView) -> Seq<char> {
        match error.cause {
            Some(cause) => error.message + ": "@ + cause,
            None => error.message,
        }
    }

    /// Renders the whole chain on one line.
    pub fn to_text(&self) -> (text: String)
        ensures
            text@ == Error::chain(self@),
    {
        let mut text = self.message.clone();
        match &self.cause {
            Some(cause) => {
                text.append(": ");
                text.append(cause.as_str());
            },
            None => {},
        }
        text
    }
}

} // verus!
