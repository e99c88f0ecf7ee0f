//! Lifetimes in words.

use vstd::prelude::*;
use vstd::string::*;

verus! {

/// What `humantime::format_duration` writes for a duration of `secs` whole
/// seconds, such as `1h 30s`.
pub uninterp spec fn human_duration(secs: u64) -> Seq<char>;

/// Calls `humantime::format_duration` on a duration of `secs` whole seconds
/// and renders the result. The contract only names the outcome.
#[verifier::external_body]
pub(crate) fn format_seconds(secs: u64) -> (text: String)
    ensures
        text@ == human_duration(secs),
{
    humantime::format_duration(std::time::Duration::from_secs(secs)).to_string()
}

/// The seconds to announce for a lifetime of `expires_in` seconds: one
/// more, so that a message read at once does not understate the lifetime;
/// the same at the largest number.
pub open spec fn announced_secs(expires_in: u64) -> u64 {
    if expires_in == u64::MAX {
        u64::MAX
    } else {
        (expires_in + 1) as u64
    }
}

/// A lifetime in words, as messages and notifications give it.
pub open spec fn announced_expiry(expires_in: u64) -> Seq<char> {
    human_duration(announced_secs(expires_in))
}

/// Renders a lifetime in words.
pub fn expiry_text(expires_in: u64) -> (text: String)
    ensures
        text@ == announced_expiry(expires_in),
{
    let secs = if expires_in == u64::MAX {
        u64::MAX
    } else {
        expires_in + 1
    };
    format_seconds(secs)
}

} // verus!
