//! Addresses, CIDR matching and the transport-side rules.

pub mod addr;
pub mod cidr;
pub mod connection_manager;
pub mod tcp_connection;
pub mod tcp_listener;

use vstd::prelude::*;

verus! {

/// How a TCP listener is set up.
#[derive(Debug, Clone)]
pub struct TCPListenerConfig {
    /// The address to listen on, such as `0.0.0.0:8080`.
    pub listen_addr: String,
}

/// How a listener is set up.
#[derive(Debug, Clone)]
pub enum ListenerConfig {
    TCP(TCPListenerConfig),
}

/// How a TCP connection is set up.
#[derive(Debug, Clone)]
pub struct TCPConnectionConfig {
    /// The address of the server.
    pub server_addr: String,
}

/// How a connection is set up.
#[derive(Debug, Clone)]
pub enum ConnectionConfig {
    TCP(TCPConnectionConfig),
}

} // verus!
