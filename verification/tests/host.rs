use serde_json::Value;
use ynsrvcs::http::{Body, Request, Timeout};
use ynsrvcs::paths::FilePath;
use ynsrvcs::wasm::gateway::GatewayState;
use ynsrvcs::wasm::host::{
    edit_outcome, exchange_result, is_rejection, log_level, modal_outcome, now_ms, reply_outcome,
    Exchange, HostContext, LogLevel, Response,
};
use ynsrvcs::wasm::limits::PluginConfig;
use ynsrvcs::wasm::requests::{
    edit_request, is_discord_api_url, message_request, modal_request, plugin_request, Attachment,
};

fn refused() -> HostContext {
    HostContext::new(reqwest::Client::new(), FilePath::new("w".to_string()), PluginConfig::default())
}

fn granted() -> HostContext {
    let mut config = PluginConfig::default();
    config.permissions.http = true;
    config.permissions.fs_read = true;
    config.permissions.fs_write = true;
    config.permissions.env = true;
    HostContext::new(reqwest::Client::new(), FilePath::new("w".to_string()), config)
}

fn gateway(application_id: u64) -> GatewayState<u8, u8> {
    let mut gateway = GatewayState::new();
    gateway.application_id = application_id;
    gateway
}

fn some(s: &str) -> Option<String> {
    Some(s.to_string())
}

fn sent(r: Result<Request, String>) -> Request {
    r.unwrap_or_else(|e| panic!("refused: {e}"))
}

fn bytes(request: &Request) -> Vec<u8> {
    match &request.body {
        Body::Bytes(b) => b.clone(),
        _ => panic!("no bytes"),
    }
}

fn text(request: &Request) -> String {
    String::from_utf8(bytes(request)).unwrap()
}

fn authorization(request: &Request) -> Option<String> {
    request.headers.iter().find(|h| h.0 == "Authorization").map(|h| h.1.clone())
}

fn json_headers() -> Vec<(String, String)> {
    vec![
        ("Authorization".to_string(), "Bot T".to_string()),
        ("Content-Type".to_string(), "application/json".to_string()),
    ]
}

const REFUSAL: &str = "http requests are not permitted";

#[test]
fn no_call_sends_a_request_without_permission() {
    let host = refused();
    let s = |t: &str| t.to_string();
    let mut results = vec![];
    results.push(host.http_request(s("GET"), s("https://x"), vec![], some("T")));
    results.push(host.send_channel_message_with_attachments(1, s("c"), vec![], some("T")));
    results.push(host.send_channel_message_with_components(1, s("c"), s(""), some("T")));
    results.push(host.reply_to_interaction(1, s("t"), s("c"), false, some("T")));
    results.push(host.edit_interaction_message(&gateway(1), s("t"), s("c"), s(""), some("T")));
    results.push(host.show_modal(1, s("t"), s("c"), s("i"), s("[]"), some("T")));
    assert_eq!(results.len(), 6);
    for result in results {
        assert_eq!(result.err(), some(REFUSAL));
    }
}

#[test]
fn refusals_come_before_other_errors() {
    let host = refused();
    let r = host.http_request("no method".to_string(), String::new(), vec![], None);
    assert_eq!(r.err(), some(REFUSAL));
    let r = host.edit_interaction_message(
        &gateway(0),
        String::new(),
        String::new(),
        "{".to_string(),
        None,
    );
    assert_eq!(r.err(), some(REFUSAL));
}

#[test]
fn the_bot_identifies_itself_to_discord_only() {
    let host = granted();
    let ask = |url: &str, body: Vec<u8>, token: Option<String>| {
        sent(host.http_request("GET".to_string(), url.to_string(), body, token))
    };
    let request = ask("https://discord.com/api/v10/x", vec![], some("T"));
    assert_eq!(authorization(&request), some("Bot T"));
    assert_eq!(request.headers.len(), 1);
    let request = ask("https://canary.discord.com/api/x", vec![1, 2], some("T"));
    assert_eq!(request.headers, json_headers());
    assert_eq!(bytes(&request), vec![1, 2]);
    assert_eq!(request.timeout, Some(Timeout::Answer(30)));
    assert_eq!(ask("https://example.com/", vec![1], some("T")).headers, vec![]);
    assert_eq!(ask("https://discord.com.evil.org/api/", vec![1], some("T")).headers, vec![]);
    assert_eq!(ask("http://discord.com/api/", vec![1], some("T")).headers, vec![]);
    let request = ask("https://discord.com/api/x", vec![1], None);
    assert_eq!(
        request.headers,
        vec![("Content-Type".to_string(), "application/json".to_string())]
    );
    assert!(is_discord_api_url("https://discord.com/api/"));
    assert!(!is_discord_api_url("https://discord.com/app/"));
}

#[test]
fn methods_are_checked() {
    let host = granted();
    let ask = |m: &str| host.http_request(m.to_string(), "https://x".to_string(), vec![], None);
    for m in ["GET", "get", "PATCH", "M-SEARCH", "a!#$%&'*+-.^_`|~9", "ALONGEREXTENSIONMETHOD"] {
        assert_eq!(sent(ask(m)).method, m);
    }
    for m in ["", "GE T", "G\n", "GÉT", "a/b", "(", "a,b"] {
        assert_eq!(ask(m).err(), some("invalid HTTP method"));
    }
}

#[test]
fn addresses_are_checked() {
    let host = granted();
    let ask = |url: &str| {
        host.http_request("GET".to_string(), url.to_string(), vec![], some("T")).err()
    };
    assert_eq!(ask("no address"), some("builder error"));
    assert_eq!(ask(""), some("builder error"));
    assert_eq!(ask("https://"), some("builder error"));
    assert_eq!(ask("mailto:a"), some("builder error for url (mailto:a)"));
    assert_eq!(ask("https://example.com"), None);
    let r = host.http_request("G T".to_string(), "no address".to_string(), vec![], None);
    assert_eq!(r.err(), some("invalid HTTP method"));
    let request = plugin_request("GET".to_string(), "no address".to_string(), vec![7], None);
    assert_eq!(request.url, "no address");
    assert_eq!(request.method, "GET");
    assert_eq!(bytes(&request), vec![7]);
}

#[test]
fn a_token_that_fits_no_header_is_refused() {
    let host = granted();
    let s = |t: &str| t.to_string();
    let bad = || some("a\nb");
    let mut results = vec![];
    results.push(host.http_request(s("GET"), s("https://discord.com/api/x"), vec![], bad()));
    results.push(host.send_channel_message_with_attachments(1, s("c"), vec![], bad()));
    results.push(host.send_channel_message_with_components(1, s("c"), s(""), bad()));
    results.push(host.reply_to_interaction(1, s("t"), s("c"), false, bad()));
    results.push(host.edit_interaction_message(&gateway(1), s("t"), s("c"), s(""), bad()));
    results.push(host.show_modal(1, s("t"), s("c"), s("i"), s("[]"), bad()));
    assert_eq!(results.len(), 6);
    for result in results {
        assert_eq!(result.err(), some("builder error"));
    }
    let other = host.http_request(s("GET"), s("https://example.com/"), vec![], bad());
    assert!(other.is_ok());
    let reply = |token: &str| host.reply_to_interaction(1, s("t"), s("c"), false, some(token));
    for token in ["", "a b", "a\tb", "é", "~"] {
        assert!(reply(token).is_ok());
    }
    for token in ["\u{7f}", "\0", "a\r", "\u{1f}"] {
        assert_eq!(reply(token).err(), some("builder error"));
    }
}

#[test]
fn any_text_may_stand_in_a_worded_address() {
    let host = granted();
    for token in ["", "a b", "é?#", "\n", "//", "..", "\u{7f}"] {
        let r = host.reply_to_interaction(1, token.to_string(), "c".to_string(), false, some("T"));
        assert!(r.is_ok());
    }
}

fn attachment(name: &str, mime: &str, data: &[u8]) -> Attachment {
    Attachment {
        filename: name.to_string(),
        content_type: mime.to_string(),
        data: data.to_vec(),
    }
}

#[test]
fn attachments_go_into_a_form() {
    let request = sent(granted().send_channel_message_with_attachments(
        42,
        "hello".to_string(),
        vec![attachment("a.txt", "text/plain", b"A"), attachment("b.png", "image/png", b"BB")],
        some("T"),
    ));
    assert_eq!(request.method, "POST");
    assert_eq!(request.url, "https://discord.com/api/v10/channels/42/messages");
    assert_eq!(request.headers, vec![("Authorization".to_string(), "Bot T".to_string())]);
    assert_eq!(request.timeout, Some(Timeout::Answer(30)));
    match request.body {
        Body::Form { payload_json, files } => {
            assert_eq!(
                payload_json,
                concat_parts(&[
                    r#"{"attachments":["#,
                    r#"{"description":"","filename":"a.txt","id":"0"},"#,
                    r#"{"description":"","filename":"b.png","id":"1"}],"#,
                    r#""content":"hello"}"#,
                ])
            );
            assert_eq!(files.len(), 2);
            assert_eq!(files[0].field, "files[0]");
            assert_eq!(files[0].filename, "a.txt");
            assert_eq!(files[0].content_type, "text/plain");
            assert_eq!(files[0].data, b"A".to_vec());
            assert_eq!(files[1].field, "files[1]");
            assert_eq!(files[1].filename, "b.png");
            assert_eq!(files[1].data, b"BB".to_vec());
        }
        _ => panic!("no form"),
    }
}

fn concat_parts(parts: &[&str]) -> String {
    let mut s = String::new();
    for part in parts {
        s.push_str(part);
    }
    s
}

#[test]
fn media_types_are_checked() {
    let send = |mime: &str| {
        granted().send_channel_message_with_attachments(
            1,
            String::new(),
            vec![attachment("a", "text/plain", b""), attachment("b", mime, b"")],
            some("T"),
        )
    };
    assert!(send("application/json; charset=utf-8").is_ok());
    assert_eq!(send("no media type").err(), some("builder error"));
    assert_eq!(send("").err(), some("builder error"));
}

#[test]
fn calls_that_speak_for_the_bot_need_its_token() {
    let host = granted();
    let s = |t: &str| t.to_string();
    let mut results = vec![];
    results.push(host.send_channel_message_with_attachments(
        1,
        s("c"),
        vec![attachment("a", "bad", b"")],
        None,
    ));
    results.push(host.send_channel_message_with_components(1, s("c"), s("{"), None));
    results.push(host.reply_to_interaction(1, s("t"), s("c"), false, None));
    results.push(host.edit_interaction_message(&gateway(1), s("t"), s("c"), s("{"), None));
    results.push(host.show_modal(1, s("t"), s("c"), s("i"), s("{"), None));
    assert_eq!(results.len(), 5);
    for result in results {
        assert_eq!(result.err(), some("DISCORD_TOKEN not set"));
    }
}

#[test]
fn a_message_carries_its_components() {
    let host = granted();
    let send = |components: &str| {
        host.send_channel_message_with_components(
            42,
            "hi".to_string(),
            components.to_string(),
            some("T"),
        )
    };
    let request = sent(send(r#" [ {"type": 1} ] "#));
    assert_eq!(request.method, "POST");
    assert_eq!(request.url, "https://discord.com/api/v10/channels/42/messages");
    assert_eq!(request.headers, json_headers());
    assert_eq!(request.timeout, None);
    assert_eq!(text(&request), r#"{"components":[{"type":1}],"content":"hi"}"#);
    assert_eq!(text(&sent(send(" \t\n"))), r#"{"components":[],"content":"hi"}"#);
    assert_eq!(text(&sent(send(""))), r#"{"components":[],"content":"hi"}"#);
    assert_eq!(
        send("{").err(),
        some("invalid components json: EOF while parsing an object at line 1 column 1")
    );
    let request = message_request(42, "hi".to_string(), Value::Null, "T");
    assert_eq!(text(&request), r#"{"components":null,"content":"hi"}"#);
    let request = edit_request(5, "tok", "hi".to_string(), Value::Null, "T");
    assert_eq!(text(&request), r#"{"components":null,"content":"hi"}"#);
    let request = modal_request(7, "tok", "t".to_string(), "i".to_string(), Value::Null, "T");
    assert_eq!(text(&request), r#"{"data":{"components":null,"custom_id":"i","title":"t"},"type":9}"#);
}

#[test]
fn an_interaction_is_answered() {
    let host = granted();
    let reply = |ephemeral: bool| {
        sent(host.reply_to_interaction(7, "tok".to_string(), "hi".to_string(), ephemeral, some("T")))
    };
    let request = reply(false);
    assert_eq!(request.method, "POST");
    assert_eq!(request.url, "https://discord.com/api/v10/interactions/7/tok/callback");
    assert_eq!(request.headers, json_headers());
    assert_eq!(text(&request), r#"{"data":{"content":"hi"},"type":4}"#);
    assert_eq!(text(&reply(true)), r#"{"data":{"content":"hi","flags":64},"type":4}"#);
}

#[test]
fn an_answer_is_edited() {
    let host = granted();
    let edit = |application_id: u64, token: Option<String>, components: &str| {
        host.edit_interaction_message(
            &gateway(application_id),
            "tok".to_string(),
            "hi".to_string(),
            components.to_string(),
            token,
        )
    };
    let request = sent(edit(5, some("T"), ""));
    assert_eq!(request.method, "PATCH");
    assert_eq!(request.url, "https://discord.com/api/v10/webhooks/5/tok/messages/@original");
    assert_eq!(request.headers, json_headers());
    assert_eq!(text(&request), r#"{"components":[],"content":"hi"}"#);
    assert_eq!(edit(0, None, "{").err(), some("application id not available"));
    assert!(edit(5, some("T"), "x").err().unwrap().starts_with("invalid components json: "));
}

#[test]
fn a_form_is_shown() {
    let host = granted();
    let show = |components: &str| {
        host.show_modal(
            7,
            "tok".to_string(),
            "Title".to_string(),
            "id".to_string(),
            components.to_string(),
            some("T"),
        )
    };
    let request = sent(show("[1]"));
    assert_eq!(request.method, "POST");
    assert_eq!(request.url, "https://discord.com/api/v10/interactions/7/tok/callback");
    assert_eq!(
        text(&request),
        r#"{"data":{"components":[1],"custom_id":"id","title":"Title"},"type":9}"#
    );
    assert!(show("").err().unwrap().starts_with("invalid components json: "));
}

#[test]
fn answers_from_discord_are_reported() {
    assert_eq!(reply_outcome(204, ""), Ok(()));
    assert_eq!(reply_outcome(400, "bad"), Err("interaction reply failed (400): bad".to_string()));
    assert_eq!(edit_outcome(200, ""), Ok(()));
    assert_eq!(
        edit_outcome(404, "gone"),
        Err("edit interaction message failed (404): gone".to_string())
    );
    assert_eq!(modal_outcome(200, ""), Ok(()));
    assert_eq!(modal_outcome(500, ""), Err("show modal failed (500): ".to_string()));
}

#[test]
fn an_exchange_is_reported() {
    assert_eq!(exchange_result(Exchange::TimedOut).err(), some("http request timed out"));
    assert_eq!(exchange_result(Exchange::Failed("no route".to_string())).err(), some("no route"));
    let answered = Exchange::Answered(Response { status: 503, body: vec![1] });
    let response = exchange_result(answered).unwrap_or_else(|e| panic!("{e}"));
    assert_eq!(response.status, 503);
    assert_eq!(response.body, vec![1]);
    assert!(is_rejection(400));
    assert!(!is_rejection(399));
}

#[test]
fn variables_are_hidden_from_plugins_without_permission() {
    assert_eq!(refused().get_env(some("v")), None);
    assert_eq!(granted().get_env(some("v")), some("v"));
    assert_eq!(granted().get_env(some("")), None);
    assert_eq!(granted().get_env(None), None);
}

#[test]
fn the_connection_is_open_to_every_plugin() {
    let mut state = gateway(0);
    state.gateway_ping_ms = 12;
    assert_eq!(refused().gateway_ping(&state), 12);
    assert_eq!(refused().application_id(&state), None);
    assert_eq!(refused().application_id(&gateway(90)), some("90"));
}

#[test]
fn files_are_in_the_workspace() {
    assert_eq!(refused().fs_read("f".to_string()).err(), some("fs read is not permitted"));
    assert_eq!(refused().fs_write("f".to_string()).err(), some("fs write is not permitted"));
    let path = granted().fs_read("f".to_string()).unwrap_or_else(|e| panic!("{e}"));
    assert_eq!(path.parts, vec!["w", "f"]);
    let path = granted().fs_write("d/f".to_string()).unwrap_or_else(|e| panic!("{e}"));
    assert_eq!(path.parts, vec!["w", "d/f"]);
}

#[test]
fn log_levels_are_read_in_any_case() {
    let level = |word: &str| refused().log(word.to_string());
    assert_eq!(level("ERROR"), LogLevel::Error);
    assert_eq!(level("Warn"), LogLevel::Warn);
    assert_eq!(level("info"), LogLevel::Info);
    assert_eq!(level("debug"), LogLevel::Debug);
    assert_eq!(level("TRACE"), LogLevel::Trace);
    assert_eq!(level("loud"), LogLevel::Info);
    assert_eq!(log_level("ERROR"), LogLevel::Info);
}

#[test]
fn the_time_is_zero_before_the_epoch() {
    assert_eq!(now_ms(None), 0);
    assert_eq!(now_ms(Some(1_700_000_000_000)), 1_700_000_000_000);
}

#[test]
fn a_plugin_is_held_to_its_limits() {
    let mut config = PluginConfig::default();
    config.limits.max_instances = 3;
    let host = HostContext::new(reqwest::Client::new(), FilePath::new("w".to_string()), config);
    assert_eq!(host.limiter().instances(), 3);
}
