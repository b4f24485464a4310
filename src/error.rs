use vstd::prelude::*;

verus! {

/// Failures of the proxy's own logic.
#[derive(Debug, Clone, Copy, PartialEq, Eq, Structural)]
pub enum ProxyError {
    /// Not enough bytes yet to decode a header or a body; read more.
    TooShort,
    /// A frame header names a kind that has no body decoder.
    UnregisteredKind,
    /// A frame refers to a handle that is not open, or opens one that is.
    ProtocolViolation,
    /// A complete HTTP request named no target host.
    UnknownHost,
    /// The peer closed before the handshake completed.
    EmptyRead,
    /// The outbound connection could not be established.
    DialError,
}

} // verus!
