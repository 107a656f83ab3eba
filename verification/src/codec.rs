//! The wire format: an 8-byte header in the clear and an encrypted payload.

pub mod errors;
pub mod frame;
pub mod parser;
