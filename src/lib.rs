//! A TCP proxy's core: the binary frame format that multiplexes virtual
//! streams over one link, the session that demultiplexes them, and the
//! handshake that tells HTTP proxy requests from opaque traffic.

pub mod error;
pub mod frame;
pub mod session;
pub mod http;
