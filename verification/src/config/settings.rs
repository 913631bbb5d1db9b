//! Settings that come from the environment.
use vstd::prelude::*;

use crate::text::{pieces, split, texts};

verus! {

/// The settings of the bot.
#[derive(Debug, Clone)]
pub struct Config {
    pub discord_token: String,
    pub plugin_dir: String,
    pub log_level: String,
    pub gateway_intents: Vec<String>,
}

/// The environment variables that the settings are read from, each as it is
/// set, if it is.
#[derive(Debug)]
pub struct Environment {
    pub discord_token: Option<String>,
    pub plugin_dir: Option<String>,
    pub log_level: Option<String>,
    pub gateway_intents: Option<String>,
}

/// A variable counts as set only where it is not empty.
pub open spec fn nonempty(value: Option<String>) -> Option<Seq<char>> {
    match value {
        Some(v) => if v@.len() == 0 {
            None
        } else {
            Some(v@)
        },
        None => None,
    }
}

/// A variable's value where it is set and not empty, else `default`.
pub open spec fn nonempty_or(value: Option<String>, default: Seq<char>) -> Seq<char> {
    match nonempty(value) {
        Some(v) => v,
        None => default,
    }
}

/// The intents that a variable lists, separated by commas, or the two that the
/// bot needs.
pub open spec fn intents_of(value: Option<String>) -> Seq<Seq<char>> {
    match nonempty(value) {
        Some(v) => pieces(v, ','),
        None => seq!["GUILD_MESSAGES"@, "MESSAGE_CONTENT"@],
    }
}

/// The value of a variable, where it is set and not empty.
pub fn env_opt(value: Option<String>) -> (r: Option<String>)
    ensures
        match r {
            Some(v) => nonempty(value) == Some(v@),
            None => nonempty(value) is None,
        },
{
    match value {
        Some(v) => if v.as_str().is_empty() {
            None
        } else {
            Some(v)
        },
        None => None,
    }
}

impl Config {
    /// The settings that the environment describes. The token has to be set.
    pub fn from_env(env: Environment) -> (r: Config)
        requires
            env.discord_token is Some,
        ensures
            r.discord_token@ == env.discord_token->0@,
            r.plugin_dir@ == nonempty_or(env.plugin_dir, "plugins"@),
            r.log_level@ == nonempty_or(env.log_level, "ynsrvcs=info"@),
            texts(r.gateway_intents@) == intents_of(env.gateway_intents),
    {
        let discord_token = env.discord_token.unwrap();
        let plugin_dir = match env_opt(env.plugin_dir) {
            Some(v) => v,
            None => "plugins".to_owned(),
        };
        let log_level = match env_opt(env.log_level) {
            Some(v) => v,
            None => "ynsrvcs=info".to_owned(),
        };
        let gateway_intents = match env_opt(env.gateway_intents) {
            Some(v) => split(v.as_str(), ','),
            None => {
                let mut intents: Vec<String> = Vec::new();
                intents.push("GUILD_MESSAGES".to_owned());
                intents.push("MESSAGE_CONTENT".to_owned());
                assert(texts(intents@) == seq!["GUILD_MESSAGES"@, "MESSAGE_CONTENT"@]);
                intents
            },
        };
        Config { discord_token, plugin_dir, log_level, gateway_intents }
    }
}

} // verus!
