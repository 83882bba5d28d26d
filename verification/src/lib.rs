//! Bridge between a platform connection object with two independently
//! pollable legs (input and output) and the single suspend/resume byte
//! stream that a WebSocket protocol engine expects.
//!
//! The crate verifies the decision logic of that bridge: the stream
//! adapter's state machine, the connect-time URL checks and transport
//! security selection, the accept-time callback threading, and the
//! mapping of platform I/O errors into a generic taxonomy.  The platform
//! calls themselves (polling, connecting, the handshake engine) suspend
//! and are driven by an outside reactor; a thin unverified shell performs
//! them and hands their outcomes to the functions here as plain values.

pub mod adapter;
pub mod client;
pub mod error;
pub mod handshake;
pub mod request;
pub mod server;
pub mod stream;

pub use error::{Error, GIOErrorCode, HandshakeError, IoError, IoErrorKind, PlatformError, UrlError};
pub use error::to_std_io_error;
pub use request::{Mode, Request, Uri};
pub use request::{domain, port, uri_mode};
pub use adapter::{ConnectStream, IOStream, IOStreamAsyncReadWrite, InputStream, OutputStream, Poll};
pub use adapter::deliver;
pub use handshake::{Callback, Response, SWITCHING_PROTOCOLS};
pub use handshake::{response_contains, server_handshake_response};
pub use stream::{WebSocketConfig, WebSocketStream};
pub use stream::deliver_between;
pub use client::{ConnectAttempt, NetworkAddress, SocketClient};
pub use client::{connect_async, connect_async_with_config};
pub use server::{accept_async, accept_async_with_config, accept_hdr_async, accept_hdr_async_with_config};
