//! The client side: the peer registry, the choice of a path, the relay
//! client and the bridge between the virtual interface and the transports.

pub mod bridge;
pub mod config;
pub mod http;
pub mod p2p;
pub mod prettylog;
pub mod relay;
pub mod stun;

use vstd::prelude::*;

verus! {

/// The UDP port of the direct IPv6 path.
pub const P2P_UDP_PORT: u16 = 51258;

/// The UDP port of the hole-punched IPv4 path.
pub const P2P_HOLE_PUNCH_PORT: u16 = 51259;

/// The MTU of the virtual interface.
pub const DEFAULT_MTU: u16 = 1430;

/// What the client is started with.
#[derive(Debug, Clone)]
pub struct Args {
    /// Where the server listens, such as `127.0.0.1:8080`.
    pub server: String,
    /// The identity of this client.
    pub identity: String,
    /// The cipher: `plain`, `aes256:<key>`, `chacha20:<key>` or `xor:<key>`.
    pub crypto: String,
    /// Seconds between two keepalives.
    pub keepalive_interval: u64,
    /// After how many silent keepalive intervals the client reconnects.
    pub keepalive_threshold: u8,
    /// Whether direct paths between peers are used.
    pub enable_p2p: bool,
}

} // verus!
