//! The connect orchestration: derive target host and port from the
//! request's URI, select transport security from the scheme strictly
//! before any connection attempt, establish the connection through the
//! platform connection client, adapt the result, and hand the adapted
//! stream to the handshake collaborator.
//!
//! The platform client is held as plain values and records every
//! attempt together with the security toggle in force at connect time,
//! so a caller can observe that the toggle was set before the attempt.
//! The connection establishment and the client-side handshake suspend
//! on the outside reactor; their outcomes enter here as arguments, and
//! the decisions taken on them are verified for every outcome.

use vstd::prelude::*;
use crate::adapter::{spec_adaptable, IOStream, IOStreamAsyncReadWrite};
use crate::error::{
    spec_to_std_io_error, to_std_io_error, Error, HandshakeError, PlatformError, UrlError,
};
use crate::handshake::Response;
use crate::request::{domain, port, spec_port, spec_uri_mode, uri_mode, Mode, Request, Uri};
use crate::stream::{WebSocketConfig, WebSocketStream};

verus! {

/// A resolvable target descriptor: host and port, handed to the
/// platform networking client, which performs resolution itself.
#[derive(Clone, Debug, PartialEq, Eq)]
pub struct NetworkAddress {
    pub host: String,
    pub port: u16,
}

impl NetworkAddress {
    /// Construct a target descriptor from host and port.
    pub fn new(host: String, port: u16) -> (a: NetworkAddress)
        ensures
            a.host == host,
            a.port == port,
    {
        NetworkAddress { host, port }
    }
}

/// One recorded connection attempt: the target descriptor and the
/// transport-security toggle in force at the moment of the attempt.
#[derive(Clone, Debug, PartialEq, Eq)]
pub struct ConnectAttempt {
    pub address: NetworkAddress,
    pub tls: bool,
}

/// The platform connection client: a transport-security toggle that
/// must be set strictly before connecting, and the record of every
/// attempt made through it.  The platform's own connect work suspends
/// on the reactor; its outcome is handed to `connect` as a value.
#[derive(Debug)]
pub struct SocketClient {
    tls: bool,
    attempts: Vec<ConnectAttempt>,
}

/// Abstract value of a platform connection client.
pub ghost struct SocketClientView {
    pub tls: bool,
    pub attempts: Seq<ConnectAttempt>,
}

impl View for SocketClient {
    type V = SocketClientView;

    closed spec fn view(&self) -> SocketClientView {
        SocketClientView { tls: self.tls, attempts: self.attempts@ }
    }
}

impl SocketClient {
    /// A fresh client: security toggle off, no attempts yet.
    pub fn new() -> (c: SocketClient)
        ensures
            c@.tls == false,
            c@.attempts.len() == 0,
    {
        SocketClient { tls: false, attempts: Vec::new() }
    }

    /// Set the transport-security toggle.  Effective only for attempts
    /// made after this call.
    pub fn set_tls(&mut self, tls: bool)
        ensures
            final(self)@.tls == tls,
            final(self)@.attempts == old(self)@.attempts,
    {
        self.tls = tls;
    }

    /// The current state of the transport-security toggle.
    pub fn tls(&self) -> (b: bool)
        ensures
            b == self@.tls,
    {
        self.tls
    }

    /// The attempts recorded so far, oldest first.
    pub fn attempts(&self) -> (a: &Vec<ConnectAttempt>)
        ensures
            a@ == self@.attempts,
    {
        &self.attempts
    }

    /// One connection attempt towards `address`.  Records the attempt
    /// with the toggle in force right now and completes with the
    /// platform's outcome, which the suspended task receives from the
    /// reactor and hands in here.
    pub fn connect(
        &mut self,
        address: NetworkAddress,
        outcome: Result<IOStream, PlatformError>,
    ) -> (r: Result<IOStream, PlatformError>)
        ensures
            r == outcome,
            final(self)@.tls == old(self)@.tls,
            final(self)@.attempts == old(self)@.attempts.push(ConnectAttempt {
                address,
                tls: old(self)@.tls,
            }),
    {
        let tls = self.tls;
        self.attempts.push(ConnectAttempt { address, tls });
        outcome
    }
}

/// The URL-level check a connect attempt performs before anything
/// network-visible: a URI without a host is rejected first, then an
/// unrecognized scheme; otherwise the attempt may proceed.
pub open spec fn spec_url_check(uri: Uri) -> Option<UrlError> {
    if uri.host@.len() == 0 {
        Some(UrlError::NoHostName)
    } else if spec_uri_mode(uri.scheme@) is Err {
        Some(UrlError::UnsupportedUrlScheme)
    } else {
        None
    }
}

/// Everything a connect attempt guarantees, for every outcome of the
/// platform connect and of the handshake collaborator.
pub open spec fn spec_connect_post(
    request: Request,
    config: Option<WebSocketConfig>,
    old_client: SocketClientView,
    new_client: SocketClientView,
    connect_outcome: Result<IOStream, PlatformError>,
    handshake_outcome: Result<Response, HandshakeError>,
    r: Result<(WebSocketStream, Response), Error>,
) -> bool {
    match spec_url_check(request.uri) {
        Some(ue) => {
            // Rejected before any network activity: nothing observable
            // happened on the client.
            &&& (r matches Err(e) && e matches Error::Url(u) && u == ue)
            &&& new_client == old_client
        },
        None => {
            let secure = spec_uri_mode(request.uri.scheme@) == Ok::<Mode, Error>(Mode::Tls);
            let p = spec_port(request.uri)->Ok_0;
            // The security toggle matches the scheme and was in force
            // at the moment of the one recorded attempt.
            &&& new_client.tls == secure
            &&& new_client.attempts == old_client.attempts.push(ConnectAttempt {
                address: NetworkAddress { host: request.uri.host, port: p },
                tls: secure,
            })
            &&& match connect_outcome {
                Err(pe) => r matches Err(e) && e matches Error::Connection(ioe)
                    && ioe == spec_to_std_io_error(pe),
                Ok(stream) => {
                    if !spec_adaptable(stream@) {
                        r matches Err(e) && e is UnsupportedStream
                    } else {
                        match handshake_outcome {
                            Err(he) => r matches Err(e) && e matches Error::Handshake(h)
                                && h == he,
                            Ok(resp) => r matches Ok(ok) && ok.0@.stream == stream@
                                && ok.0@.config == config && ok.1 == resp,
                        }
                    }
                },
            }
        },
    }
}

/// Connect to the request's target with a given protocol configuration.
///
/// In order: normalize and check the URL (host, then port, then mode;
/// each failure short-circuits before any network activity), set the
/// client's transport-security toggle from the mode strictly before
/// connecting, construct the target descriptor, make the connection
/// attempt, adapt the resulting connection, and surface the handshake
/// collaborator's result verbatim.
pub fn connect_async_with_config(
    request: &Request,
    config: Option<WebSocketConfig>,
    client: &mut SocketClient,
    connect_outcome: Result<IOStream, PlatformError>,
    handshake_outcome: Result<Response, HandshakeError>,
) -> (r: Result<(WebSocketStream, Response), Error>)
    ensures
        spec_connect_post(
            *request,
            config,
            old(client)@,
            final(client)@,
            connect_outcome,
            handshake_outcome,
            r,
        ),
{
    let domain = match domain(request) {
        Ok(d) => d,
        Err(e) => return Err(e),
    };
    let port = match port(request) {
        Ok(p) => p,
        Err(e) => return Err(e),
    };

    // The URL must be fully checked before anything network-visible:
    // the mode decides the security toggle, which has no effect once
    // connecting has begun.
    let mode = match uri_mode(&request.uri) {
        Ok(m) => m,
        Err(e) => return Err(e),
    };
    match mode {
        Mode::Tls => client.set_tls(true),
        Mode::Plain => client.set_tls(false),
    }

    let connectable = NetworkAddress::new(domain, port);

    let socket = match client.connect(connectable, connect_outcome) {
        Ok(s) => s,
        Err(e) => return Err(Error::Connection(to_std_io_error(e))),
    };
    let socket = match IOStreamAsyncReadWrite::new(socket) {
        Ok(s) => s,
        Err(_) => return Err(Error::UnsupportedStream),
    };

    match handshake_outcome {
        Ok(resp) => Ok((WebSocketStream::from_raw_socket(socket, config), resp)),
        Err(he) => Err(Error::Handshake(he)),
    }
}

/// Connect to the request's target.  Same guarantees as
/// `connect_async_with_config` with no configuration.
pub fn connect_async(
    request: &Request,
    client: &mut SocketClient,
    connect_outcome: Result<IOStream, PlatformError>,
    handshake_outcome: Result<Response, HandshakeError>,
) -> (r: Result<(WebSocketStream, Response), Error>)
    ensures
        spec_connect_post(
            *request,
            None,
            old(client)@,
            final(client)@,
            connect_outcome,
            handshake_outcome,
            r,
        ),
{
    connect_async_with_config(request, None, client, connect_outcome, handshake_outcome)
}

} // verus!
