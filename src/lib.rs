//! The transport layer of an interactive client for a memcached-like cache
//! service: datagram framing and reassembly, the decisions of datagram and
//! stream channels, the SASL handshake run on a new connection, and the
//! command hints of the prompt. Sockets, threads and the SASL engine stay with
//! the caller, which performs the steps these types ask for.
pub mod auth;
pub mod codec;
pub mod connection;
pub mod datagram;
pub mod hints;
pub mod stream;
pub mod wire;
