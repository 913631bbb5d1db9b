//! The connection to the Discord gateway.
pub mod handler;
