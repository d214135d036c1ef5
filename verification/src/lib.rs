//! A verified core for an HTTP CONNECT proxy that egresses through a
//! SOCKS5 upstream: parsing of `host:port` authorities, the SOCKS5 client
//! handshake as a byte-level state machine, and the bookkeeping of the
//! bidirectional byte relay.

pub mod addr;
pub mod frontend;
pub mod relay;
pub mod socks;
