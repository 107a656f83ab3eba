//! The status page.

pub mod models;
