//! The error of the bot.
use vstd::prelude::*;

use crate::text::joined;

verus! {

#[verifier::external_type_specification]
#[verifier::external_body]
pub struct ExAnyhowError(anyhow::Error);

/// An error, by the part of the bot that it comes from.
#[derive(Debug)]
pub enum BotError {
    Config(String),
    Wasm(String),
    Discord(String),
    Other(String),
}

/// The text under which an error is shown.
pub open spec fn message(e: BotError) -> Seq<char> {
    match e {
        BotError::Config(msg) => "Config error: "@ + msg@,
        BotError::Wasm(msg) => "Wasm error: "@ + msg@,
        BotError::Discord(msg) => "Discord error: "@ + msg@,
        BotError::Other(msg) => msg@,
    }
}

impl BotError {
    /// The text under which the error is shown.
    pub fn fmt(&self) -> (r: String)
        ensures
            r@ == message(*self),
    {
        match self {
            BotError::Config(msg) => joined("Config error: ", msg.as_str()),
            BotError::Wasm(msg) => joined("Wasm error: ", msg.as_str()),
            BotError::Discord(msg) => joined("Discord error: ", msg.as_str()),
            BotError::Other(msg) => msg.clone(),
        }
    }
}

impl From<String> for BotError {
    fn from(s: String) -> (r: BotError) {
        BotError::Other(s)
    }
}

impl vstd::std_specs::convert::FromSpecImpl<String> for BotError {
    open spec fn obeys_from_spec() -> bool {
        true
    }

    open spec fn from_spec(s: String) -> BotError {
        BotError::Other(s)
    }
}

/// Whether `text` is a text under which an error may be shown.
pub uninterp spec fn may_show(e: anyhow::Error, text: Seq<char>) -> bool;

/// Calls `to_string` on an `anyhow::Error`: a text under which the error that it
/// wraps may be shown. There may be several, since that error may word itself by
/// the machine.
#[verifier::external_body]
fn anyhow_text(e: &anyhow::Error) -> (r: String)
    ensures
        may_show(*e, r@),
{
    e.to_string()
}

impl From<anyhow::Error> for BotError {
    fn from(e: anyhow::Error) -> (r: BotError)
        ensures
            r matches BotError::Other(s) && may_show(e, s@),
    {
        BotError::from(anyhow_text(&e))
    }
}

impl vstd::std_specs::convert::FromSpecImpl<anyhow::Error> for BotError {
    open spec fn obeys_from_spec() -> bool {
        false
    }

    open spec fn from_spec(e: anyhow::Error) -> BotError {
        arbitrary()
    }
}

} // verus!
