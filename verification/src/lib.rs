//! Verified core of a SOCKS5 gateway.
//!
//! The library holds everything the gateway decides or computes: parsing and
//! validating the SOCKS5 greeting and CONNECT request, formatting destination
//! addresses, encoding replies, mapping dial outcomes to reply codes, and the
//! decisions of the bidirectional relay. All I/O stays outside the library;
//! callers read and write the byte stream and feed the bytes through the
//! handshake state machine.

pub mod addr;
pub mod proto;
pub mod relay;
pub mod text;
