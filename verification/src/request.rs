//! The request model: a URI held as plain values (scheme, host,
//! optional explicit port) plus ordered headers, and the URL-level
//! decisions a connect attempt makes before any network activity —
//! extracting the domain, determining the port, and deriving the
//! transport-security mode from the scheme.

use vstd::prelude::*;
use crate::error::{Error, UrlError};

verus! {

/// A URI reduced to what the connect logic reads: its scheme, its host
/// and an optional explicit port.  URI parsing itself is delegated to a
/// helper outside this crate; the parsed parts are consumed as input.
#[derive(Clone, Debug, PartialEq, Eq)]
pub struct Uri {
    pub scheme: String,
    pub host: String,
    pub port: Option<u16>,
}

/// A request: target URI plus ordered header pairs, mutable until the
/// handshake begins.
#[derive(Clone, Debug, PartialEq, Eq)]
pub struct Request {
    pub uri: Uri,
    pub headers: Vec<(String, String)>,
}

/// Transport-security selection derived from the URI scheme.
#[derive(Clone, Copy, Debug, PartialEq, Eq, Structural)]
pub enum Mode {
    /// Plain-text transport.
    Plain,
    /// TLS transport.
    Tls,
}

/// The scheme that selects plain transport.
pub open spec fn spec_is_plain_scheme(scheme: Seq<char>) -> bool {
    scheme == "ws"@
}

/// The scheme that selects secure transport.
pub open spec fn spec_is_secure_scheme(scheme: Seq<char>) -> bool {
    scheme == "wss"@
}

/// Whether the scheme is one of the two recognized WebSocket schemes.
/// A scheme equal to `"ws"` counts as plain even before the two
/// literals are known to differ, mirroring the order in which the
/// recognizer tests them.
pub open spec fn spec_uri_mode(scheme: Seq<char>) -> Result<Mode, Error> {
    if spec_is_plain_scheme(scheme) {
        Ok(Mode::Plain)
    } else if spec_is_secure_scheme(scheme) {
        Ok(Mode::Tls)
    } else {
        Err(Error::Url(UrlError::UnsupportedUrlScheme))
    }
}

/// Get the mode of the given URI: `ws` is plain, `wss` is secure, and
/// any other scheme is rejected before any network activity.
pub fn uri_mode(uri: &Uri) -> (r: Result<Mode, Error>)
    ensures
        r == spec_uri_mode(uri.scheme@),
{
    let ws: String = "ws".to_owned();
    let wss: String = "wss".to_owned();
    if uri.scheme == ws {
        Ok(Mode::Plain)
    } else if uri.scheme == wss {
        Ok(Mode::Tls)
    } else {
        Err(Error::Url(UrlError::UnsupportedUrlScheme))
    }
}

/// Extract the domain (host) from the request's URI.  Fails with a URL
/// error when the URI carries no host.
pub fn domain(request: &Request) -> (r: Result<String, Error>)
    ensures
        request.uri.host@.len() == 0 ==> (
            r matches Err(e) && e matches Error::Url(u) && u == UrlError::NoHostName
        ),
        request.uri.host@.len() != 0 ==> (r matches Ok(d) && d == request.uri.host),
{
    if request.uri.host.as_str().is_empty() {
        Err(Error::Url(UrlError::NoHostName))
    } else {
        Ok(request.uri.host.clone())
    }
}

/// What `port` returns: the explicit port when the URI names one, the
/// scheme's default otherwise, and a URL error when neither determines
/// a port.
pub open spec fn spec_port(uri: Uri) -> Result<u16, Error> {
    match uri.port {
        Some(p) => Ok(p),
        None => match spec_uri_mode(uri.scheme@) {
            Ok(Mode::Plain) => Ok(80u16),
            Ok(Mode::Tls) => Ok(443u16),
            Err(e) => Err(e),
        },
    }
}

/// Determine the port of the request's URI: an explicit port wins, a
/// recognized scheme supplies its default, and an unrecognized scheme
/// without an explicit port is a URL error.
pub fn port(request: &Request) -> (r: Result<u16, Error>)
    ensures
        r == spec_port(request.uri),
{
    match request.uri.port {
        Some(p) => Ok(p),
        None => match uri_mode(&request.uri) {
            Ok(Mode::Plain) => Ok(80u16),
            Ok(Mode::Tls) => Ok(443u16),
            Err(e) => Err(e),
        },
    }
}

} // verus!
