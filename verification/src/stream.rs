//! The protocol stream handle returned to callers: it owns the adapted
//! stream and carries the optional protocol configuration forwarded
//! verbatim.  Its byte operations delegate to the adapter; framing is
//! the handshake collaborator's business and stays outside this crate.

use vstd::prelude::*;
use crate::adapter::{
    spec_after_close, spec_after_flush, spec_after_read, spec_after_write, spec_read_len,
    spec_write_accepts, IOStreamAsyncReadWrite, IOStreamView, Poll,
};
use crate::error::IoErrorKind;

verus! {

/// Recognized tuning options for the protocol engine; opaque to this
/// crate and forwarded verbatim.
#[derive(Clone, Copy, Debug, PartialEq, Eq)]
pub struct WebSocketConfig {
    pub max_message_size: Option<usize>,
    pub max_frame_size: Option<usize>,
}

/// A stream handle speaking the WebSocket protocol over an adapted
/// connection.
#[derive(Debug)]
pub struct WebSocketStream {
    stream: IOStreamAsyncReadWrite,
    config: Option<WebSocketConfig>,
}

/// Abstract value of a protocol stream handle.
pub ghost struct WebSocketStreamView {
    pub stream: IOStreamView,
    pub config: Option<WebSocketConfig>,
}

impl View for WebSocketStream {
    type V = WebSocketStreamView;

    closed spec fn view(&self) -> WebSocketStreamView {
        WebSocketStreamView { stream: self.stream@, config: self.config }
    }
}

impl WebSocketStream {
    /// Wrap an already-adapted stream, forwarding the configuration
    /// verbatim.
    pub fn from_raw_socket(
        stream: IOStreamAsyncReadWrite,
        config: Option<WebSocketConfig>,
    ) -> (ws: WebSocketStream)
        ensures
            ws@.stream == stream@,
            ws@.config == config,
    {
        WebSocketStream { stream, config }
    }

    /// The configuration this handle was created with, verbatim.
    pub fn get_config(&self) -> (c: Option<WebSocketConfig>)
        ensures
            c == self@.config,
    {
        self.config
    }

    /// One read poll on the adapted stream, with room for `max` bytes.
    pub fn poll_read(&mut self, max: usize) -> (r: Poll<Vec<u8>>)
        requires
            max >= 1,
        ensures
            final(self)@.config == old(self)@.config,
            old(self)@.stream.input.buffered.len() == 0 && !old(self)@.stream.input.eof ==> (
                r matches Poll::Pending && final(self)@ == old(self)@
            ),
            old(self)@.stream.input.buffered.len() == 0 && old(self)@.stream.input.eof ==> (
                r matches Poll::Ready(v) && v@.len() == 0 && final(self)@ == old(self)@
            ),
            old(self)@.stream.input.buffered.len() > 0 ==> (
                r matches Poll::Ready(v)
                    && v@ == old(self)@.stream.input.buffered.take(
                        spec_read_len(old(self)@.stream, max as nat) as int,
                    )
                    && v@.len() >= 1
                    && final(self)@.stream == spec_after_read(old(self)@.stream, max as nat)
            ),
    {
        self.stream.poll_read(max)
    }

    /// One write poll on the adapted stream.
    pub fn poll_write(&mut self, buf: &[u8]) -> (r: Poll<Result<usize, IoErrorKind>>)
        ensures
            final(self)@.config == old(self)@.config,
            !spec_write_accepts(old(self)@.stream) ==> (
                r matches Poll::Ready(res) && res matches Err(k) && k == IoErrorKind::Closed
                    && final(self)@ == old(self)@
            ),
            spec_write_accepts(old(self)@.stream) ==> (
                r matches Poll::Ready(res) && res matches Ok(n) && n == buf@.len()
                    && final(self)@.stream == spec_after_write(old(self)@.stream, buf@)
            ),
    {
        self.stream.poll_write(buf)
    }

    /// One flush poll on the adapted stream.
    pub fn poll_flush(&mut self) -> (r: Poll<Result<(), IoErrorKind>>)
        ensures
            final(self)@.config == old(self)@.config,
            r matches Poll::Ready(res) && res is Ok,
            final(self)@.stream == spec_after_flush(old(self)@.stream),
    {
        self.stream.poll_flush()
    }

    /// One close poll on the adapted stream's output leg.
    pub fn poll_close(&mut self) -> (r: Poll<Result<(), IoErrorKind>>)
        ensures
            final(self)@.config == old(self)@.config,
            r matches Poll::Ready(res) && res is Ok,
            final(self)@.stream == spec_after_close(old(self)@.stream),
    {
        self.stream.poll_close()
    }
}

/// The transport delivering between two protocol streams: move the
/// bytes one side has confirmed sent into the peer's input leg.
pub fn deliver_between(src: &mut WebSocketStream, dst: &mut WebSocketStream)
    ensures
        final(src)@.config == old(src)@.config,
        final(dst)@.config == old(dst)@.config,
        final(src)@.stream == crate::adapter::spec_after_deliver(
            old(src)@.stream,
            old(dst)@.stream,
        ).0,
        final(dst)@.stream == crate::adapter::spec_after_deliver(
            old(src)@.stream,
            old(dst)@.stream,
        ).1,
{
    crate::adapter::deliver(&mut src.stream, &mut dst.stream);
}

} // verus!
