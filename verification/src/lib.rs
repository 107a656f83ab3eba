//! A mesh VPN overlay: peers exchange tunneled IPv4 packets over a TCP relay
//! and over direct UDP paths.
//!
//! This crate holds the rules of the overlay: the frame codec and its
//! ciphers, the peer registry with its two transport slots per peer, the
//! choice of a path for an outbound packet, the relay client's state
//! machine, and the relay server's cluster switch. Every function is
//! verified against its contract. Sockets, timers and the virtual interface
//! are left to the caller, which hands events in and carries actions out.

pub mod client;
pub mod codec;
pub mod crypto;
pub mod network;
pub mod server;
pub mod utils;
