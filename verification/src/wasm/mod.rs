//! Plugins and what they are given.
pub mod gateway;
pub mod host;
pub mod hotreload;
pub mod kv;
pub mod limits;
pub mod loader;
pub mod names;
pub mod plugin;
pub mod requests;
pub mod session;
