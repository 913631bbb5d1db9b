//! What the library promises of its operations, in terms of what goes in and what
//! comes out.
pub mod answers;
pub mod commands;
pub mod events;
pub mod plugins;
pub mod requests;
pub mod sessions;
pub mod storage;
pub mod values;
