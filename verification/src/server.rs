//! The relay server: who may connect, who is connected, and where a frame
//! from a connected client goes.

pub mod client_manager;
pub mod conf_agent;
pub mod config;
pub mod server;
