//! Direct paths between peers: two transport slots per peer, kept fresh by
//! probes.

pub mod laws;
pub mod model;
pub mod peer;
pub mod udp_server;

use vstd::prelude::*;

verus! {

/// How many packets a channel between two tasks holds.
pub const OUTBOUND_BUFFER_SIZE: usize = 2048;

/// Milliseconds between two rounds of probes.
pub const KEEPALIVE_INTERVAL_MS: u64 = 10000;

/// Milliseconds for which a slot stays live after a frame came from its
/// address.
pub const CONNECTION_TIMEOUT_MS: u64 = 15000;

} // verus!
