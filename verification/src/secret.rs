//! Values that must not leave the process by accident.

use vstd::prelude::*;
use vstd::string::*;

verus! {

/// A text that is only readable through [`Secret::expose`].
///
/// The type has no formatting impl, so a value cannot be printed or logged
/// by a generic path.
pub struct Secret {
    pub(crate) text: String,
}

impl View for Secret {
    type V = Seq<char>;

    closed spec fn view(&self) -> Seq<char> {
        self.text@
    }
}

impl Secret {
    /// Wraps `text`.
    pub fn new(text: String) -> (secret: Secret)
        ensures
            secret@ == text@,
    {
        Secret { text }
    }

    /// The plain text. Call it at the last possible point.
    pub fn expose(&self) -> (text: &str)
        ensures
            text@ == self@,
    {
        self.text.as_str()
    }

    /// A second wrapper around the same text.
    pub fn duplicate(&self) -> (secret: Secret)
        ensures
            secret@ == self@,
    {
        Secret { text: self.text.clone() }
    }
}

/// The text behind an optional secret.
pub open spec fn secret_view(secret: Option<Secret>) -> Option<Seq<char>> {
    match secret {
        Some(secret) => Some(secret@),
        None => None,
    }
}

} // verus!
