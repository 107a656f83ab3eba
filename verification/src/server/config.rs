//! The server's configuration file, as plain values.

use vstd::prelude::*;
use crate::crypto::CryptoConfig;

verus! {

/// Seconds between two reads of the routes file.
pub const RELOAD_INTERVAL_SECS: u64 = 10;

/// What the server's configuration file holds.
#[derive(Debug, Clone)]
pub struct Config {
    pub server_config: ServerConfig,
    pub crypto_config: CryptoConfig,
    pub route_config: RouteConfig,
}

/// Where the server listens.
#[derive(Debug, Clone)]
pub struct ServerConfig {
    pub listen_addr: String,
}

/// Where the client records are kept.
#[derive(Debug, Clone)]
pub struct RouteConfig {
    pub routes_file: String,
}

} // verus!
