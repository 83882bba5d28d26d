//! The accept orchestration: adapt an already-open connection object
//! and hand the adapted stream, the callback capability and the
//! configuration to the handshake collaborator.  Four entry points of
//! increasing configurability all funnel into the most general form;
//! this side only threads the callback through, it never inspects
//! headers itself.

use vstd::prelude::*;
use crate::adapter::{spec_adaptable, IOStream, IOStreamAsyncReadWrite};
use crate::error::{Error, HandshakeError};
use crate::handshake::{server_handshake_response, Callback};
use crate::stream::{WebSocketConfig, WebSocketStream};

verus! {

/// Everything an accept guarantees: a connection whose legs lack the
/// pollable capability is rejected as an unsupported stream, a
/// rejecting callback surfaces as a handshake error with its status
/// code, and otherwise the returned handle wraps exactly the adapted
/// connection with the configuration forwarded verbatim.
pub open spec fn spec_accept_post(
    stream: IOStream,
    callback: Callback,
    config: Option<WebSocketConfig>,
    r: Result<WebSocketStream, Error>,
) -> bool {
    if !spec_adaptable(stream@) {
        r matches Err(e) && e is UnsupportedStream
    } else {
        match callback {
            Callback::Reject(code) => r matches Err(e) && e matches Error::Handshake(he)
                && he matches HandshakeError::Rejected(c) && c == code,
            _ => r matches Ok(ws) && ws@.stream == stream@ && ws@.config == config,
        }
    }
}

/// Accept a new WebSocket connection on the provided stream, with a
/// header-processing callback and a protocol configuration.  The most
/// general accept; the three others funnel into it.
pub fn accept_hdr_async_with_config(
    stream: IOStream,
    callback: Callback,
    config: Option<WebSocketConfig>,
) -> (r: Result<WebSocketStream, Error>)
    ensures
        spec_accept_post(stream, callback, config, r),
{
    let adapted = match IOStreamAsyncReadWrite::new(stream) {
        Ok(s) => s,
        Err(_) => return Err(Error::UnsupportedStream),
    };

    match server_handshake_response(&callback) {
        Ok(_) => Ok(WebSocketStream::from_raw_socket(adapted, config)),
        Err(e) => Err(e),
    }
}

/// Accept a new WebSocket connection on the provided stream, with a
/// header-processing callback.
pub fn accept_hdr_async(stream: IOStream, callback: Callback) -> (r: Result<WebSocketStream, Error>)
    ensures
        spec_accept_post(stream, callback, None, r),
{
    accept_hdr_async_with_config(stream, callback, None)
}

/// Accept a new WebSocket connection on the provided stream, with a
/// protocol configuration and no header inspection.
pub fn accept_async_with_config(
    stream: IOStream,
    config: Option<WebSocketConfig>,
) -> (r: Result<WebSocketStream, Error>)
    ensures
        spec_accept_post(stream, Callback::NoCallback, config, r),
{
    accept_hdr_async_with_config(stream, Callback::NoCallback, config)
}

/// Accept a new WebSocket connection on the provided stream.  This is
/// typically used after a connection was handed out by a listener; the
/// server half of the handshake runs on the adapted stream.
pub fn accept_async(stream: IOStream) -> (r: Result<WebSocketStream, Error>)
    ensures
        spec_accept_post(stream, Callback::NoCallback, None, r),
{
    accept_hdr_async(stream, Callback::NoCallback)
}

} // verus!
