//! The client's configuration file, as plain values.

use vstd::prelude::*;
use vstd::string::*;
use crate::crypto::CryptoConfig;

verus! {

/// What the client's configuration file holds.
#[derive(Debug, Clone)]
pub struct Config {
    pub client_config: ClientConfig,
    pub crypto_config: CryptoConfig,
}

/// How the client reaches the server.
#[derive(Clone, Debug)]
pub struct ClientConfig {
    /// The protocol of the connection to the server, such as `tcp`.
    pub server_protocol: String,
    /// Where the server listens, such as `127.0.0.1:8080`.
    pub server_addr: String,
    /// Seconds that a connection attempt may take.
    pub connect_timeout_secs: u16,
    /// After how many silent keepalive intervals the client reconnects.
    pub keep_alive_thresh: u8,
    /// Seconds between two keepalives.
    pub keep_alive_interval: u64,
    /// The identity of this client.
    pub identity: String,
}

/// The protocol that is used when the file names none.
pub fn default_server_protocol() -> (r: String)
    ensures
        r@ == "tcp"@,
{
    String::from_str("tcp")
}

/// The connect timeout that is used when the file names none.
pub fn default_connect_timeout_secs() -> (r: u16)
    ensures
        r == 5,
{
    5
}

/// The keepalive threshold that is used when the file names none.
pub fn default_keep_alive_thresh() -> (r: u8)
    ensures
        r == 5,
{
    5
}

/// The keepalive interval that is used when the file names none.
pub fn default_keep_alive_interval() -> (r: u64)
    ensures
        r == 10,
{
    10
}

impl ClientConfig {
    /// The configuration for a server and an identity, with every other
    /// setting at its default.
    pub fn with_defaults(server_addr: String, identity: String) -> (r: Self)
        ensures
            r.server_protocol@ == "tcp"@,
            r.server_addr@ == server_addr@,
            r.connect_timeout_secs == 5,
            r.keep_alive_thresh == 5,
            r.keep_alive_interval == 10,
            r.identity@ == identity@,
    {
        ClientConfig {
            server_protocol: default_server_protocol(),
            server_addr,
            connect_timeout_secs: default_connect_timeout_secs(),
            keep_alive_thresh: default_keep_alive_thresh(),
            keep_alive_interval: default_keep_alive_interval(),
            identity,
        }
    }
}

} // verus!
