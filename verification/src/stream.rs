//! Which stream to open towards the token endpoint.
//!
//! Nothing here opens a connection: [`Stream::connect`] decides what has to
//! be dialled and how, and the caller dials.

use vstd::prelude::*;
use vstd::string::*;

use crate::error::{plain_error, Error, ErrorKind, ErrorView};
use crate::text::{decimal, decimal_text, eq_ignore_ascii_case, eq_ignoring_ascii_case};
use crate::uri::{Uri, UriParts, UriView};

verus! {

/// The TLS backend of an account.
#[derive(Clone, Copy, Debug, PartialEq, Eq, Structural)]
pub enum Tls {
    /// No TLS backend: only plain endpoints can be reached.
    Disabled,
    /// The TLS library of the platform.
    NativeTls,
    /// Rustls with the AWS-LC crypto provider.
    RustlsAws,
    /// Rustls with the ring crypto provider.
    RustlsRing,
}

impl Default for Tls {
    fn default() -> (tls: Tls)
        ensures
            tls == Tls::RustlsAws,
    {
        Tls::RustlsAws
    }
}

/// How the bytes of a stream travel.
#[derive(Clone, Copy, Debug, PartialEq, Eq, Structural)]
pub enum StreamKind {
    /// Plain TCP.
    Plain,
    /// TLS by the library of the platform, over TCP.
    NativeTls,
    /// TLS by rustls with the AWS-LC crypto provider, over TCP.
    RustlsAws,
    /// TLS by rustls with the ring crypto provider, over TCP.
    RustlsRing,
}

/// A stream to open: where to dial and what to speak.
#[derive(Debug)]
pub struct Stream {
    pub kind: StreamKind,
    pub host: String,
    pub port: u16,
}

/// The mathematical value of a [`Stream`].
pub struct StreamView {
    pub kind: StreamKind,
    pub host: Seq<char>,
    pub port: u16,
}

impl View for Stream {
    type V = StreamView;

    open spec fn view(&self) -> StreamView {
        StreamView { kind: self.kind, host: self.host@, port: self.port }
    }
}

/// The TLS stream towards `host` on `port` that the backend `tls` opens;
/// without a backend, a configuration error that names the host.
pub open spec fn tls_stream(tls: Tls, host: Seq<char>, port: u16) -> Result<
    StreamView,
    ErrorView,
> {
    match tls {
        Tls::Disabled => Err(
            plain_error(
                ErrorKind::Configuration,
                "missing TLS configuration to connect to "@ + host,
            ),
        ),
        Tls::NativeTls => Ok(StreamView { kind: StreamKind::NativeTls, host, port }),
        Tls::RustlsAws => Ok(StreamView { kind: StreamKind::RustlsAws, host, port }),
        Tls::RustlsRing => Ok(StreamView { kind: StreamKind::RustlsRing, host, port }),
    }
}

/// The `Host` header value and the stream for the token endpoint `uri`.
///
/// The endpoint needs a host and a port: the port that its URI names, or
/// the default port of its scheme. The stream goes to that host and port,
/// by TLS for an `https` endpoint and by plain TCP for any other, and the
/// header names the same host and port.
pub open spec fn stream_for(uri: UriView, tls: Tls) -> Result<(Seq<char>, StreamView), ErrorView> {
    match uri.host {
        None => Err(
            plain_error(ErrorKind::Configuration, "missing host in token endpoint: "@ + uri.text),
        ),
        Some(host) => match uri.port {
            None => Err(
                plain_error(
                    ErrorKind::Configuration,
                    "missing port in token endpoint: "@ + uri.text,
                ),
            ),
            Some(port) => {
                let header = host + ":"@ + decimal(port as nat);
                if eq_ignoring_ascii_case(uri.scheme, "https"@) {
                    match tls_stream(tls, host, port) {
                        Ok(stream) => Ok((header, stream)),
                        Err(error) => Err(error),
                    }
                } else {
                    Ok((header, StreamView { kind: StreamKind::Plain, host, port }))
                }
            },
        },
    }
}

/// A planned stream goes to the host and the port of the endpoint, and the
/// `Host` header names both, whatever the scheme and the TLS backend are.
pub proof fn lemma_stream_reaches_endpoint(uri: UriView, tls: Tls)
    requires
        stream_for(uri, tls) is Ok,
    ensures
        uri.host is Some,
        uri.port is Some,
        stream_for(uri, tls)->Ok_0.1.host == uri.host->Some_0,
        stream_for(uri, tls)->Ok_0.1.port == uri.port->Some_0,
        stream_for(uri, tls)->Ok_0.0 == uri.host->Some_0 + ":"@ + decimal(
            uri.port->Some_0 as nat,
        ),
{
}

impl Tls {
    /// The TLS stream to open towards `host` on `port`.
    pub fn connect(&self, host: &str, port: u16) -> (stream: Result<Stream, Error>)
        ensures
            match tls_stream(*self, host@, port) {
                Ok(expected) => stream matches Ok(s) && s@ == expected,
                Err(expected) => stream matches Err(e) && e@ == expected,
            },
    {
        let kind = match self {
            Tls::Disabled => {
                let mut message = String::from_str("missing TLS configuration to connect to ");
                message.append(host);
                return Err(Error::new(ErrorKind::Configuration, message));
            },
            Tls::NativeTls => StreamKind::NativeTls,
            Tls::RustlsAws => StreamKind::RustlsAws,
            Tls::RustlsRing => StreamKind::RustlsRing,
        };
        Ok(Stream { kind, host: String::from_str(host), port })
    }
}

impl Stream {
    /// The `Host` header value and the stream to open for the token
    /// endpoint `uri`.
    pub fn connect(uri: &Uri, tls: &Tls) -> (plan: Result<(String, Stream), Error>)
        ensures
            match stream_for(uri@, *tls) {
                Ok(expected) => plan matches Ok(p) && p.0@ == expected.0 && p.1@ == expected.1,
                Err(expected) => plan matches Err(e) && e@ == expected,
            },
    {
        Stream::towards(uri.parts(), tls)
    }

    /// The `Host` header value and the stream to open for the token
    /// endpoint with the given components.
    pub fn towards(endpoint: &UriParts, tls: &Tls) -> (plan: Result<(String, Stream), Error>)
        ensures
            match stream_for(endpoint@, *tls) {
                Ok(expected) => plan matches Ok(p) && p.0@ == expected.0 && p.1@ == expected.1,
                Err(expected) => plan matches Err(e) && e@ == expected,
            },
    {
        let host = match endpoint.host_str() {
            Some(host) => host,
            None => {
                let mut message = String::from_str("missing host in token endpoint: ");
                message.append(endpoint.text.as_str());
                return Err(Error::new(ErrorKind::Configuration, message));
            },
        };
        let port = match endpoint.port {
            Some(port) => port,
            None => {
                let mut message = String::from_str("missing port in token endpoint: ");
                message.append(endpoint.text.as_str());
                return Err(Error::new(ErrorKind::Configuration, message));
            },
        };
        let stream = if eq_ignore_ascii_case(endpoint.scheme.as_str(), "https") {
            match tls.connect(host, port) {
                Ok(stream) => stream,
                Err(error) => {
                    return Err(error);
                },
            }
        } else {
            Stream { kind: StreamKind::Plain, host: String::from_str(host), port }
        };
        let mut header = String::from_str(host);
        header.append(":");
        let digits = decimal_text(port as u64);
        header.append(digits.as_str());
        Ok((header, stream))
    }
}

} // verus!
