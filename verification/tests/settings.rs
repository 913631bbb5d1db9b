use ynsrvcs::config::settings::{env_opt, Environment};
use ynsrvcs::config::Config;

#[test]
fn config_from_env_uses_defaults() {
    let cfg = Config::from_env(Environment {
        discord_token: Some("test-token".to_string()),
        plugin_dir: None,
        log_level: None,
        gateway_intents: None,
    });
    assert_eq!(cfg.discord_token, "test-token");
    assert_eq!(cfg.log_level, "ynsrvcs=info");
}

#[test]
fn unset_variables_have_defaults() {
    let cfg = Config::from_env(Environment {
        discord_token: Some("t".to_string()),
        plugin_dir: None,
        log_level: None,
        gateway_intents: None,
    });
    assert_eq!(cfg.plugin_dir, "plugins");
    assert_eq!(cfg.gateway_intents, vec!["GUILD_MESSAGES", "MESSAGE_CONTENT"]);
}

#[test]
fn empty_variables_count_as_unset() {
    let cfg = Config::from_env(Environment {
        discord_token: Some(String::new()),
        plugin_dir: Some(String::new()),
        log_level: Some(String::new()),
        gateway_intents: Some(String::new()),
    });
    assert_eq!(cfg.discord_token, "");
    assert_eq!(cfg.plugin_dir, "plugins");
    assert_eq!(cfg.log_level, "ynsrvcs=info");
    assert_eq!(cfg.gateway_intents.len(), 2);
}

#[test]
fn variables_that_are_set_are_taken_as_they_are() {
    let cfg = Config::from_env(Environment {
        discord_token: Some("t".to_string()),
        plugin_dir: Some("/srv/plugins".to_string()),
        log_level: Some("debug".to_string()),
        gateway_intents: Some("A,,B, C".to_string()),
    });
    assert_eq!(cfg.plugin_dir, "/srv/plugins");
    assert_eq!(cfg.log_level, "debug");
    assert_eq!(cfg.gateway_intents, vec!["A", "", "B", " C"]);
}

#[test]
fn env_opt_drops_the_empty_value() {
    assert_eq!(env_opt(None), None);
    assert_eq!(env_opt(Some(String::new())), None);
    assert_eq!(env_opt(Some(" ".to_string())), Some(" ".to_string()));
}
