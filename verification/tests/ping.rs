use serde_json::Value;
use ynsrvcs::paths::FilePath;
use ynsrvcs::ping::{handle_interaction, register_ping_command, Call, PingPlugin};
use ynsrvcs::wasm::host::HostContext;
use ynsrvcs::wasm::limits::PluginConfig;

fn json(text: &str) -> Value {
    serde_json::from_str(text).unwrap()
}

fn url(call: Option<Call>) -> Option<String> {
    call.map(|c| c.url)
}

fn some(s: &str) -> Option<String> {
    Some(s.to_string())
}

const COMMANDS_OF_5: &str = "https://discord.com/api/v10/applications/5/commands";

#[test]
fn the_command_is_registered() {
    let call = register_ping_command("5");
    assert_eq!(call.method, "PUT");
    assert_eq!(call.url, COMMANDS_OF_5);
    assert_eq!(call.body, br#"[{"description":"Ping!","name":"ping","type":1}]"#.to_vec());
}

#[test]
fn the_command_is_registered_once_the_application_is_known() {
    let mut plugin = PingPlugin::new();
    assert_eq!(url(plugin.initialize(None)), None);
    assert_eq!(url(plugin.initialize(some("5"))), some(COMMANDS_OF_5));
    assert_eq!(plugin.app_id, some("5"));
    assert_eq!(url(plugin.ensure_command_registered(None)), some(COMMANDS_OF_5));
    plugin.ensure_command_registered(some("6"));
    assert_eq!(plugin.app_id, some("6"));
}

#[test]
fn a_ready_event_makes_the_application_known() {
    let mut plugin = PingPlugin::new();
    let call = plugin.handle_event("READY", &br#"{"application":{"id":"5"}}"#.to_vec());
    assert_eq!(url(call), some(COMMANDS_OF_5));
    assert_eq!(plugin.app_id, some("5"));
    let call = plugin.handle_event("READY", &b"{}".to_vec());
    assert_eq!(url(call), None);
    assert_eq!(plugin.app_id, some("5"));
}

#[test]
fn ping_is_answered() {
    let call = handle_interaction(&json(r#"{"id":"1","token":"t","data":{"name":"ping"}}"#));
    let call = call.unwrap_or_else(|| panic!("no answer"));
    assert_eq!(call.method, "POST");
    assert_eq!(call.url, "https://discord.com/api/v10/interactions/1/t/callback");
    assert_eq!(call.body, br#"{"data":{"content":"Pong!"},"type":4}"#.to_vec());
}

#[test]
fn nothing_else_is_answered() {
    let answered = |text: &str| handle_interaction(&json(text)).is_some();
    assert!(!answered(r#"{"id":"1","token":"t","data":{"name":"pong"}}"#));
    assert!(!answered(r#"{"id":"1","token":"t","data":{}}"#));
    assert!(!answered(r#"{"id":"1","token":"t"}"#));
    assert!(!answered(r#"{"token":"t","data":{"name":"ping"}}"#));
    assert!(!answered(r#"{"id":"1","data":{"name":"ping"}}"#));
    assert!(!answered(r#"{"id":1,"token":"t","data":{"name":"ping"}}"#));
}

#[test]
fn events_are_told_apart_by_their_type() {
    let mut plugin = PingPlugin::new();
    let event = json(r#"{"id":"1","token":"t","data":{"name":"ping"},"application":{"id":"5"}}"#);
    assert_eq!(url(plugin.react("MESSAGE_CREATE", &event)), None);
    assert_eq!(plugin.app_id, None);
    assert_eq!(
        url(plugin.react("INTERACTION_CREATE", &event)),
        some("https://discord.com/api/v10/interactions/1/t/callback")
    );
    assert_eq!(plugin.app_id, None);
    assert_eq!(url(plugin.react("READY", &event)), some(COMMANDS_OF_5));
}

#[test]
fn data_that_is_no_document_is_passed_over() {
    let mut plugin = PingPlugin::new();
    assert_eq!(url(plugin.handle_event("INTERACTION_CREATE", &vec![0xff, 0x00])), None);
    assert_eq!(url(plugin.handle_event("READY", &b"{".to_vec())), None);
}

#[test]
fn messages_and_the_end_are_taken_as_they_come() {
    let plugin = PingPlugin::new();
    assert_eq!(plugin.handle_bus_event("topic".to_string(), vec![1]), Ok(()));
    assert_eq!(plugin.shutdown(), Ok(()));
}

#[test]
fn the_host_sends_the_calls_of_the_plugin() {
    let mut config = PluginConfig::default();
    config.permissions.http = true;
    let host = HostContext::new(reqwest::Client::new(), FilePath::new("w".to_string()), config);
    let call = register_ping_command("5");
    let request = host
        .http_request(call.method, call.url, call.body, some("T"))
        .unwrap_or_else(|e| panic!("{e}"));
    assert_eq!(request.headers[0], ("Authorization".to_string(), "Bot T".to_string()));
}
