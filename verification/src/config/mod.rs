//! The settings of the bot.
pub mod settings;

pub use settings::Config;
