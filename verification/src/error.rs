//! Error taxonomy of the bridge, and the mapper from platform-domain
//! I/O errors to a generic I/O error taxonomy.
//!
//! A platform error is carried as plain values: an optional recognized
//! I/O classification plus a diagnostic message.  The mapper keeps the
//! original error as the cause of the generic one, so no diagnostic
//! information is ever discarded.

use vstd::prelude::*;

verus! {

/// Recognized platform-side I/O error classifications, as the platform's
/// error domain tags them.
#[derive(Clone, Copy, Debug, PartialEq, Eq, Structural)]
pub enum GIOErrorCode {
    NotFound,
    PermissionDenied,
    ConnectionRefused,
    HostUnreachable,
    NetworkUnreachable,
    TimedOut,
    Closed,
    Cancelled,
}

/// A platform-domain I/O error: an optional recognized classification
/// plus its diagnostic message.
#[derive(Clone, Debug, PartialEq, Eq)]
pub struct PlatformError {
    /// The recognized classification, if the error's domain carries one.
    pub code: Option<GIOErrorCode>,
    /// Human-readable diagnostic text of the original error.
    pub message: String,
}

/// Generic I/O error kinds understood by the rest of the system.
#[derive(Clone, Copy, Debug, PartialEq, Eq, Structural)]
pub enum IoErrorKind {
    NotFound,
    PermissionDenied,
    ConnectionRefused,
    HostUnreachable,
    NetworkUnreachable,
    TimedOut,
    Closed,
    Interrupted,
    Other,
}

/// A generic I/O error: a kind plus the original platform error kept as
/// contextual cause.
#[derive(Clone, Debug, PartialEq, Eq)]
pub struct IoError {
    pub kind: IoErrorKind,
    pub cause: PlatformError,
}

/// The generic kind corresponding to one recognized platform
/// classification.
pub open spec fn spec_kind_of_code(code: GIOErrorCode) -> IoErrorKind {
    match code {
        GIOErrorCode::NotFound => IoErrorKind::NotFound,
        GIOErrorCode::PermissionDenied => IoErrorKind::PermissionDenied,
        GIOErrorCode::ConnectionRefused => IoErrorKind::ConnectionRefused,
        GIOErrorCode::HostUnreachable => IoErrorKind::HostUnreachable,
        GIOErrorCode::NetworkUnreachable => IoErrorKind::NetworkUnreachable,
        GIOErrorCode::TimedOut => IoErrorKind::TimedOut,
        GIOErrorCode::Closed => IoErrorKind::Closed,
        GIOErrorCode::Cancelled => IoErrorKind::Interrupted,
    }
}

/// What the error mapper produces: a recognized classification maps to
/// its generic kind, anything else to `Other`; the original error is
/// preserved as cause either way.
pub open spec fn spec_to_std_io_error(e: PlatformError) -> IoError {
    IoError {
        kind: match e.code {
            Some(code) => spec_kind_of_code(code),
            None => IoErrorKind::Other,
        },
        cause: e,
    }
}

/// Converts a platform-domain I/O error into the generic taxonomy,
/// preserving the original error as contextual cause.
pub fn to_std_io_error(error: PlatformError) -> (r: IoError)
    ensures
        r == spec_to_std_io_error(error),
{
    let kind = match error.code {
        Some(code) => match code {
            GIOErrorCode::NotFound => IoErrorKind::NotFound,
            GIOErrorCode::PermissionDenied => IoErrorKind::PermissionDenied,
            GIOErrorCode::ConnectionRefused => IoErrorKind::ConnectionRefused,
            GIOErrorCode::HostUnreachable => IoErrorKind::HostUnreachable,
            GIOErrorCode::NetworkUnreachable => IoErrorKind::NetworkUnreachable,
            GIOErrorCode::TimedOut => IoErrorKind::TimedOut,
            GIOErrorCode::Closed => IoErrorKind::Closed,
            GIOErrorCode::Cancelled => IoErrorKind::Interrupted,
        },
        None => IoErrorKind::Other,
    };
    IoError { kind, cause: error }
}

/// URL-level failures: detected before any network activity.
#[derive(Clone, Copy, Debug, PartialEq, Eq, Structural)]
pub enum UrlError {
    /// The URI has no host.
    NoHostName,
    /// The URI scheme is not a recognized WebSocket scheme.
    UnsupportedUrlScheme,
}

/// Failures surfaced verbatim from the handshake collaborator.
#[derive(Clone, Debug, PartialEq, Eq)]
pub enum HandshakeError {
    /// The header-inspecting callback rejected the handshake with this
    /// status code.
    Rejected(u16),
    /// The collaborator reported a protocol-level failure.
    Protocol(String),
}

/// The classified errors a connect or accept attempt can fail with.
#[derive(Clone, Debug, PartialEq, Eq)]
pub enum Error {
    /// Malformed or unsupported URI; detected before any network
    /// activity.
    Url(UrlError),
    /// Transport-level failure during connection establishment.
    Connection(IoError),
    /// The connection object's legs do not support the pollable
    /// capability required for adaptation.
    UnsupportedStream,
    /// Surfaced verbatim from the handshake collaborator.
    Handshake(HandshakeError),
}

} // verus!
