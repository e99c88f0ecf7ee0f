use ortie::endpoint::Endpoints;
use ortie::stream::{Stream, StreamKind, Tls};
use ortie::uri::Uri;

fn uri(text: &str) -> Uri {
    Uri::parse(text).unwrap()
}

fn endpoints(redirection: Option<&str>) -> Endpoints {
    Endpoints {
        authorization: uri("https://provider.example/authorize"),
        token: uri("https://provider.example/token"),
        redirection: redirection.map(uri),
    }
}

#[test]
fn uri_components_are_those_of_the_url_crate() {
    let parsed = uri("HTTPS://User@Example.COM:8443/a/../b?x=1#frag");
    assert_eq!(parsed.source(), "HTTPS://User@Example.COM:8443/a/../b?x=1#frag");
    assert_eq!(parsed.as_str(), "https://User@example.com:8443/b?x=1#frag");
    assert_eq!(parsed.scheme(), "https");
    assert_eq!(parsed.host_str(), Some("example.com"));
    assert_eq!(parsed.port_or_known_default(), Some(8443));
    assert_eq!(parsed.path(), "/b");
}

#[test]
fn uri_without_host_or_port() {
    let parsed = uri("unix:/run/foo.socket");
    assert_eq!(parsed.host_str(), None);
    assert_eq!(parsed.port_or_known_default(), None);
    let parsed = uri("foo://example.com/x");
    assert_eq!(parsed.host_str(), Some("example.com"));
    assert_eq!(parsed.port_or_known_default(), None);
    assert_eq!(uri("http://example.com").port_or_known_default(), Some(80));
    assert_eq!(uri("http://example.com").path(), "/");
}

#[test]
fn uri_parse_reports_the_error_of_the_url_crate() {
    assert_eq!(Uri::parse("not a uri").err().unwrap(), "relative URL without a base");
    assert_eq!(Uri::parse("http://").err().unwrap(), "empty host");
}

#[test]
fn with_query_replaces_the_query() {
    let base = uri("https://provider.example/authorize?old=1#top");
    assert_eq!(base.with_query("a=b&c=d"), "https://provider.example/authorize?a=b&c=d#top");
    assert_eq!(uri("https://p.example").with_query("x=y z"), "https://p.example/?x=y%20z");
}

#[test]
fn redirection_defaults_without_uri() {
    let endpoints = endpoints(None);
    assert_eq!(endpoints.redirection_scheme(), "http");
    assert_eq!(endpoints.redirection_host(), "127.0.0.1");
    assert_eq!(endpoints.redirection_port(), 80);
}

#[test]
fn redirection_follows_the_uri() {
    let endpoints = endpoints(Some("https://localhost:9999/callback"));
    assert_eq!(endpoints.redirection_scheme(), "https");
    assert_eq!(endpoints.redirection_host(), "localhost");
    assert_eq!(endpoints.redirection_port(), 9999);
}

#[test]
fn redirection_port_defaults_by_scheme() {
    assert_eq!(endpoints(Some("https://localhost/cb")).redirection_port(), 443);
    assert_eq!(endpoints(Some("http://localhost/cb")).redirection_port(), 80);
    assert_eq!(endpoints(Some("custom://localhost/cb")).redirection_port(), 80);
    assert_eq!(endpoints(Some("custom://localhost:81/cb")).redirection_port(), 81);
}

#[test]
fn redirection_host_defaults_when_the_uri_has_none() {
    let endpoints = endpoints(Some("urn:ietf:wg:oauth:2.0:oob"));
    assert_eq!(endpoints.redirection_scheme(), "urn");
    assert_eq!(endpoints.redirection_host(), "127.0.0.1");
    assert_eq!(endpoints.redirection_port(), 80);
}

#[test]
fn tls_default_is_rustls_with_aws_lc() {
    assert_eq!(Tls::default(), Tls::RustlsAws);
}

#[test]
fn plain_endpoint_is_dialled_on_its_own_port() {
    let (host, stream) = Stream::connect(&uri("http://provider.example:8080/token"), &Tls::Disabled).unwrap();
    assert_eq!(host, "provider.example:8080");
    assert_eq!(stream.kind, StreamKind::Plain);
    assert_eq!(stream.host, "provider.example");
    assert_eq!(stream.port, 8080);

    let (host, stream) = Stream::connect(&uri("http://provider.example/token"), &Tls::Disabled).unwrap();
    assert_eq!(host, "provider.example:80");
    assert_eq!(stream.kind, StreamKind::Plain);
    assert_eq!(stream.port, 80);
}

#[test]
fn https_endpoint_is_dialled_with_tls_on_its_own_port() {
    let cases = [
        (Tls::NativeTls, StreamKind::NativeTls),
        (Tls::RustlsAws, StreamKind::RustlsAws),
        (Tls::RustlsRing, StreamKind::RustlsRing),
    ];
    for (tls, kind) in cases {
        let (host, stream) = Stream::connect(&uri("https://provider.example/token"), &tls).unwrap();
        assert_eq!(host, "provider.example:443");
        assert_eq!(stream.kind, kind);
        assert_eq!(stream.host, "provider.example");
        assert_eq!(stream.port, 443);

        let (host, stream) = Stream::connect(&uri("https://provider.example:8443/token"), &tls).unwrap();
        assert_eq!(host, "provider.example:8443");
        assert_eq!(stream.kind, kind);
        assert_eq!(stream.host, "provider.example");
        assert_eq!(stream.port, 8443);
    }
}

#[test]
fn https_endpoint_without_tls_backend_fails() {
    let err = Stream::connect(&uri("https://provider.example/token"), &Tls::Disabled).err().unwrap();
    assert_eq!(err.kind, ortie::error::ErrorKind::Configuration);
    assert_eq!(err.message, "missing TLS configuration to connect to provider.example");
    assert_eq!(err.cause, None);
    let err = Tls::Disabled.connect("h", 8443).err().unwrap();
    assert_eq!(err.message, "missing TLS configuration to connect to h");
    let stream = Tls::NativeTls.connect("h", 8443).unwrap();
    assert_eq!((stream.kind, stream.host.as_str(), stream.port), (StreamKind::NativeTls, "h", 8443));
}

#[test]
fn endpoint_without_host_or_port_fails() {
    let err = Stream::connect(&uri("unix:/run/foo.socket"), &Tls::RustlsRing).err().unwrap();
    assert_eq!(err.message, "missing host in token endpoint: unix:/run/foo.socket");
    let err = Stream::connect(&uri("foo://example.com/x"), &Tls::RustlsRing).err().unwrap();
    assert_eq!(err.message, "missing port in token endpoint: foo://example.com/x");
    assert_eq!(err.kind, ortie::error::ErrorKind::Configuration);
}
