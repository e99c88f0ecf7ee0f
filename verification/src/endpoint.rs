//! The endpoints of an account, and where its redirections arrive.

use vstd::prelude::*;
use vstd::string::*;

use crate::text::{eq_ignore_ascii_case, eq_ignoring_ascii_case};
use crate::uri::{Uri, UriParts, UriView};

verus! {

/// The three endpoints of an account.
pub struct Endpoints {
    /// Where the user grants access.
    pub authorization: Uri,
    /// Where codes and refresh tokens are exchanged for access tokens.
    pub token: Uri,
    /// Where the provider sends the user back to, if the account names it.
    pub redirection: Option<Uri>,
}

/// The view of an optional URI.
pub open spec fn uri_view(uri: Option<Uri>) -> Option<UriView> {
    match uri {
        Some(uri) => Some(uri@),
        None => None,
    }
}

/// The scheme redirections use: that of the redirection URI, `http` without
/// one.
pub open spec fn redirection_scheme_of(redirection: Option<UriView>) -> Seq<char> {
    match redirection {
        Some(uri) => uri.scheme,
        None => "http"@,
    }
}

/// The host redirections arrive at: that of the redirection URI, the
/// loopback address where there is no URI or no host in it.
pub open spec fn redirection_host_of(redirection: Option<UriView>) -> Seq<char> {
    match redirection {
        Some(uri) => match uri.host {
            Some(host) => host,
            None => "127.0.0.1"@,
        },
        None => "127.0.0.1"@,
    }
}

/// The port redirections arrive at: that of the redirection URI or the
/// default of its scheme; where neither is known 443 for `https` and 80
/// otherwise; 80 without a redirection URI.
pub open spec fn redirection_port_of(redirection: Option<UriView>) -> u16 {
    match redirection {
        Some(uri) => match uri.port {
            Some(port) => port,
            None => if eq_ignoring_ascii_case(uri.scheme, "https"@) {
                443
            } else {
                80
            },
        },
        None => 80,
    }
}

/// The view of optional components.
pub open spec fn parts_view(parts: Option<&UriParts>) -> Option<UriView> {
    match parts {
        Some(parts) => Some(parts@),
        None => None,
    }
}

/// The scheme that redirections use, given the components of the
/// redirection URI.
pub fn redirection_scheme(redirection: Option<&UriParts>) -> (scheme: &str)
    ensures
        scheme@ == redirection_scheme_of(parts_view(redirection)),
{
    match redirection {
        Some(parts) => parts.scheme.as_str(),
        None => "http",
    }
}

/// The host that redirections arrive at, given the components of the
/// redirection URI.
pub fn redirection_host(redirection: Option<&UriParts>) -> (host: &str)
    ensures
        host@ == redirection_host_of(parts_view(redirection)),
{
    match redirection {
        Some(parts) => match parts.host_str() {
            Some(host) => host,
            None => "127.0.0.1",
        },
        None => "127.0.0.1",
    }
}

/// The port that redirections arrive at, given the components of the
/// redirection URI.
pub fn redirection_port(redirection: Option<&UriParts>) -> (port: u16)
    ensures
        port == redirection_port_of(parts_view(redirection)),
{
    match redirection {
        Some(parts) => match parts.port {
            Some(port) => port,
            None => if eq_ignore_ascii_case(parts.scheme.as_str(), "https") {
                443
            } else {
                80
            },
        },
        None => 80,
    }
}

impl Endpoints {
    /// The components of the redirection URI, if the account names one.
    pub fn redirection_parts(&self) -> (parts: Option<&UriParts>)
        ensures
            parts_view(parts) == uri_view(self.redirection),
    {
        match &self.redirection {
            Some(uri) => Some(uri.parts()),
            None => None,
        }
    }

    /// The scheme of the local redirection listener.
    pub fn redirection_scheme(&self) -> (scheme: &str)
        ensures
            scheme@ == redirection_scheme_of(uri_view(self.redirection)),
    {
        redirection_scheme(self.redirection_parts())
    }

    /// The host of the local redirection listener.
    pub fn redirection_host(&self) -> (host: &str)
        ensures
            host@ == redirection_host_of(uri_view(self.redirection)),
    {
        redirection_host(self.redirection_parts())
    }

    /// The port of the local redirection listener.
    pub fn redirection_port(&self) -> (port: u16)
        ensures
            port == redirection_port_of(uri_view(self.redirection)),
    {
        redirection_port(self.redirection_parts())
    }
}

} // verus!
