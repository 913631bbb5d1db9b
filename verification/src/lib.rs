//! A Discord bot whose behaviour is supplied by sandboxed plugins.
pub mod text;
pub mod json;
pub mod laws;
pub mod http;
pub mod bot;
pub mod config;
pub mod exception;
pub mod paths;
pub mod ping;
pub mod wasm;
