//! What can go wrong.
pub mod error;
