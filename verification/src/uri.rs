//! URIs, as the `url` crate reads them.
//!
//! A [`Uri`] keeps the text it was read from next to the components that the
//! rules of this crate look at. The components are whatever the `url` crate
//! finds in that text: the spec functions without a body below name its
//! answers, and the type's invariant ties each field to its name.

use vstd::prelude::*;
use vstd::string::*;

verus! {

/// What `url::Url::parse` makes of `text`: the serialization of the parsed
/// URL, or the message of the parse error.
pub uninterp spec fn url_parse(text: Seq<char>) -> Result<Seq<char>, Seq<char>>;

/// What `url::Url::scheme` returns for the URL parsed from `text`.
pub uninterp spec fn url_scheme(text: Seq<char>) -> Seq<char>;

/// What `url::Url::host_str` returns for the URL parsed from `text`.
pub uninterp spec fn url_host(text: Seq<char>) -> Option<Seq<char>>;

/// What `url::Url::port_or_known_default` returns for the URL parsed from
/// `text`.
pub uninterp spec fn url_port(text: Seq<char>) -> Option<u16>;

/// What `url::Url::path` returns for the URL parsed from `text`.
pub uninterp spec fn url_path(text: Seq<char>) -> Seq<char>;

/// What is left of the URL parsed from `text` after `url::Url::set_query`
/// replaced its query by `query`: the serialization of the changed URL.
pub uninterp spec fn url_with_query(text: Seq<char>, query: Seq<char>) -> Seq<char>;

/// Calls `url::Url::parse` and hands back the serialization of the URL
/// (`url::Url::as_str`) or the text of the parse error. The contract only
/// names the outcome.
#[verifier::external_body]
fn parse_url(text: &str) -> (parsed: Result<String, String>)
    ensures
        match url_parse(text@) {
            Ok(serialized) => parsed matches Ok(s) && s@ == serialized,
            Err(message) => parsed matches Err(m) && m@ == message,
        },
{
    match url::Url::parse(text) {
        Ok(url) => Ok(url.as_str().to_owned()),
        Err(err) => Err(err.to_string()),
    }
}

/// Calls `url::Url::scheme` on the URL parsed from `text`. The contract only
/// names the outcome.
#[verifier::external_body]
fn scheme_of(text: &str) -> (scheme: String)
    requires
        url_parse(text@) is Ok,
    ensures
        scheme@ == url_scheme(text@),
{
    url::Url::parse(text).unwrap().scheme().to_owned()
}

/// Calls `url::Url::host_str` on the URL parsed from `text`. The contract
/// only names the outcome.
#[verifier::external_body]
fn host_of(text: &str) -> (host: Option<String>)
    requires
        url_parse(text@) is Ok,
    ensures
        match url_host(text@) {
            Some(name) => host matches Some(h) && h@ == name,
            None => host is None,
        },
{
    url::Url::parse(text).unwrap().host_str().map(|host| host.to_owned())
}

/// Calls `url::Url::port_or_known_default` on the URL parsed from `text`.
/// The contract only names the outcome.
#[verifier::external_body]
fn port_of(text: &str) -> (port: Option<u16>)
    requires
        url_parse(text@) is Ok,
    ensures
        port == url_port(text@),
{
    url::Url::parse(text).unwrap().port_or_known_default()
}

/// Calls `url::Url::path` on the URL parsed from `text`. The contract only
/// names the outcome.
#[verifier::external_body]
fn path_of(text: &str) -> (path: String)
    requires
        url_parse(text@) is Ok,
    ensures
        path@ == url_path(text@),
{
    url::Url::parse(text).unwrap().path().to_owned()
}

/// Calls `url::Url::set_query` with `Some(query)` on the URL parsed from
/// `text` and hands back the serialization of the changed URL. The contract
/// only names the outcome.
#[verifier::external_body]
fn replace_query(text: &str, query: &str) -> (changed: String)
    requires
        url_parse(text@) is Ok,
    ensures
        changed@ == url_with_query(text@, query@),
{
    let mut url = url::Url::parse(text).unwrap();
    url.set_query(Some(query));
    url.as_str().to_owned()
}

/// The components of a URI in plain values: what the rules of this crate
/// look at.
#[derive(Debug)]
pub struct UriParts {
    /// The text that was parsed.
    pub source: String,
    /// The serialization of the parsed URI.
    pub text: String,
    /// The scheme, without the colon.
    pub scheme: String,
    /// The host, where the URI has one.
    pub host: Option<String>,
    /// The port, or the default port of the scheme where one is known.
    pub port: Option<u16>,
    /// The path.
    pub path: String,
}

/// The mathematical value of a [`UriParts`] and of a [`Uri`].
pub struct UriView {
    pub source: Seq<char>,
    pub text: Seq<char>,
    pub scheme: Seq<char>,
    pub host: Option<Seq<char>>,
    pub port: Option<u16>,
    pub path: Seq<char>,
}

impl View for UriParts {
    type V = UriView;

    open spec fn view(&self) -> UriView {
        UriView {
            source: self.source@,
            text: self.text@,
            scheme: self.scheme@,
            host: match self.host {
                Some(host) => Some(host@),
                None => None,
            },
            port: self.port,
            path: self.path@,
        }
    }
}

impl UriParts {
    /// The host, where the URI has one.
    pub fn host_str(&self) -> (host: Option<&str>)
        ensures
            match self@.host {
                Some(name) => host matches Some(h) && h@ == name,
                None => host is None,
            },
    {
        match &self.host {
            Some(host) => Some(host.as_str()),
            None => None,
        }
    }
}

/// The components that the `url` crate finds in `source`.
pub open spec fn uri_of(source: Seq<char>) -> UriView {
    UriView {
        source,
        text: url_parse(source)->Ok_0,
        scheme: url_scheme(source),
        host: url_host(source),
        port: url_port(source),
        path: url_path(source),
    }
}

/// A parsed URI: components that the `url` crate found in a text.
pub struct Uri {
    parts: UriParts,
}

impl View for Uri {
    type V = UriView;

    closed spec fn view(&self) -> UriView {
        self.parts@
    }
}

impl Uri {
    #[verifier::type_invariant]
    closed spec fn well_formed(&self) -> bool {
        &&& url_parse(self.parts.source@) is Ok
        &&& self.parts@ == uri_of(self.parts.source@)
    }

    /// Reads a URI: succeeds exactly where the `url` crate parses `text`,
    /// and fails with its message otherwise.
    pub fn parse(text: &str) -> (parsed: Result<Uri, String>)
        ensures
            match url_parse(text@) {
                Ok(_) => parsed matches Ok(uri) && uri@ == uri_of(text@),
                Err(message) => parsed matches Err(m) && m@ == message,
            },
    {
        match parse_url(text) {
            Ok(serialized) => {
                let parts = UriParts {
                    source: String::from_str(text),
                    text: serialized,
                    scheme: scheme_of(text),
                    host: host_of(text),
                    port: port_of(text),
                    path: path_of(text),
                };
                Ok(Uri { parts })
            },
            Err(message) => Err(message),
        }
    }

    /// The components of the URI.
    pub fn parts(&self) -> (parts: &UriParts)
        ensures
            parts@ == self@,
    {
        &self.parts
    }

    /// The serialization of the URI.
    pub fn as_str(&self) -> (text: &str)
        ensures
            text@ == self@.text,
    {
        self.parts.text.as_str()
    }

    /// The text that the URI was read from: one that the `url` crate
    /// parses, into the components of this value.
    pub fn source(&self) -> (text: &str)
        ensures
            text@ == self@.source,
            url_parse(text@) is Ok,
            self@ == uri_of(text@),
    {
        proof {
            use_type_invariant(self);
        }
        self.parts.source.as_str()
    }

    /// The scheme, without the colon.
    pub fn scheme(&self) -> (scheme: &str)
        ensures
            scheme@ == self@.scheme,
    {
        self.parts.scheme.as_str()
    }

    /// The host, where the URI has one.
    pub fn host_str(&self) -> (host: Option<&str>)
        ensures
            match self@.host {
                Some(name) => host matches Some(h) && h@ == name,
                None => host is None,
            },
    {
        self.parts.host_str()
    }

    /// The port, or the default port of the scheme where one is known.
    pub fn port_or_known_default(&self) -> (port: Option<u16>)
        ensures
            port == self@.port,
    {
        self.parts.port
    }

    /// The path.
    pub fn path(&self) -> (path: &str)
        ensures
            path@ == self@.path,
    {
        self.parts.path.as_str()
    }

    /// The serialization of this URI after its query was replaced by
    /// `query`.
    pub fn with_query(&self, query: &str) -> (changed: String)
        ensures
            changed@ == url_with_query(self@.source, query@),
    {
        proof {
            use_type_invariant(self);
        }
        replace_query(self.parts.source.as_str(), query)
    }
}

} // verus!
