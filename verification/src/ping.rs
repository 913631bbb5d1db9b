//! A plugin that answers the command `ping`.
use serde_json::Value;
use vstd::prelude::*;

use crate::json::{
    compact, document, documents, make_object1, make_object2, make_object3, member, nested_member,
    object1, object2, object3, parsed_bytes, text_of, Json,
};
use crate::text::{joined, same};
use crate::wasm::requests::{is_discord_api, is_method, lemma_keys_differ};

verus! {

/// A request that the plugin asks its host to send.
pub struct Call {
    pub method: String,
    pub url: String,
    pub body: Vec<u8>,
}

/// The contents of a `Call`.
#[verifier::ext_equal]
pub struct CallView {
    pub method: Seq<char>,
    pub url: Seq<char>,
    pub body: Seq<u8>,
}

impl View for Call {
    type V = CallView;

    open spec fn view(&self) -> CallView {
        CallView { method: self.method@, url: self.url@, body: self.body@ }
    }
}

/// The plugin, with the identifier of the application once it is known.
pub struct PingPlugin {
    pub app_id: Option<String>,
}

impl View for PingPlugin {
    type V = Option<Seq<char>>;

    open spec fn view(&self) -> Option<Seq<char>> {
        known(self.app_id)
    }
}

/// The text of an identifier that may be known.
pub open spec fn known(id: Option<String>) -> Option<Seq<char>> {
    match id {
        Some(id) => Some(id@),
        None => None,
    }
}

/// The contents of a call that may be made.
pub open spec fn call_of(call: Option<Call>) -> Option<CallView> {
    match call {
        Some(c) => Some(c@),
        None => None,
    }
}

/// The call that registers the command of an application.
pub open spec fn registration(app_id: Seq<char>) -> CallView {
    CallView {
        method: "PUT"@,
        url: "https://discord.com/api/v10/applications/"@ + app_id + "/commands"@,
        body: vstd::utf8::encode_utf8(
            compact(
                Json::Array(
                    seq![
                        object3(
                            "name"@,
                            Json::Text("ping"@),
                            "description"@,
                            Json::Text("Ping!"@),
                            "type"@,
                            Json::Natural(1),
                        ),
                    ],
                ),
            ),
        ),
    }
}

/// The call that answers an interaction.
pub open spec fn answer(id: Seq<char>, token: Seq<char>) -> CallView {
    CallView {
        method: "POST"@,
        url: "https://discord.com/api/v10/interactions/"@ + id + "/"@ + token + "/callback"@,
        body: vstd::utf8::encode_utf8(
            compact(
                object2(
                    "type"@,
                    Json::Natural(4),
                    "data"@,
                    object1("content"@, Json::Text("Pong!"@)),
                ),
            ),
        ),
    }
}

/// The identifier to register with: what the host knows, else what the plugin
/// knows.
pub open spec fn identifier(host: Option<Seq<char>>, plugin: Option<Seq<char>>) -> Option<
    Seq<char>,
> {
    match host {
        Some(id) => Some(id),
        None => plugin,
    }
}

/// What the plugin does about an interaction.
pub open spec fn reaction_to_interaction(event: Json) -> Option<CallView> {
    if text_of(nested_member(event, "data"@, "name"@)) != Some("ping"@) {
        None
    } else {
        match (text_of(member(event, "id"@)), text_of(member(event, "token"@))) {
            (Some(id), Some(token)) => Some(answer(id, token)),
            _ => None,
        }
    }
}

/// The identifier that the plugin takes up from an event.
pub open spec fn taken_up(event_type: Seq<char>, event: Json) -> Option<Seq<char>> {
    if event_type == "READY"@ {
        text_of(nested_member(event, "application"@, "id"@))
    } else {
        None
    }
}

/// What the plugin does about an event.
pub open spec fn reaction(event_type: Seq<char>, event: Json) -> Option<CallView> {
    if event_type == "INTERACTION_CREATE"@ {
        reaction_to_interaction(event)
    } else {
        match taken_up(event_type, event) {
            Some(id) => Some(registration(id)),
            None => None,
        }
    }
}

/// The call that registers the command of an application.
pub fn register_ping_command(app_id: &str) -> (r: Call)
    ensures
        r@ == registration(app_id@),
{
    let mut url = joined("https://discord.com/api/v10/applications/", app_id);
    url.append("/commands");
    proof {
        lemma_keys_differ();
    }
    let command = make_object3(
        "name",
        crate::json::text("ping".to_owned()),
        "description",
        crate::json::text("Ping!".to_owned()),
        "type",
        crate::json::natural(1),
    );
    let mut commands: Vec<Value> = Vec::new();
    commands.push(command);
    assert(documents(commands@) == seq![document(command)]);
    let body = crate::json::array(commands);
    Call { method: "PUT".to_owned(), url, body: crate::json::encode(&body) }
}

/// What the plugin does about an interaction: it answers the command `ping`.
pub fn handle_interaction(event: &Value) -> (r: Option<Call>)
    ensures
        call_of(r) == reaction_to_interaction(document(*event)),
{
    let name = match crate::json::text_in(crate::json::get_nested(event, "data", "name")) {
        Some(n) => n,
        None => return None,
    };
    if !same(name, "ping") {
        return None;
    }
    let id = match crate::json::text_in(crate::json::get(event, "id")) {
        Some(id) => id,
        None => return None,
    };
    let token = match crate::json::text_in(crate::json::get(event, "token")) {
        Some(token) => token,
        None => return None,
    };
    proof {
        lemma_keys_differ();
    }
    let body = make_object2(
        "type",
        crate::json::natural(4),
        "data",
        make_object1("content", crate::json::text("Pong!".to_owned())),
    );
    let mut url = joined("https://discord.com/api/v10/interactions/", id);
    url.append("/");
    url.append(token);
    url.append("/callback");
    Some(Call { method: "POST".to_owned(), url, body: crate::json::encode(&body) })
}

impl PingPlugin {
    /// The plugin before it knows the application.
    pub fn new() -> (r: PingPlugin)
        ensures
            r@ is None,
    {
        PingPlugin { app_id: None }
    }

    /// Registers the command where the application is known, to the host or to
    /// the plugin.
    pub fn ensure_command_registered(&mut self, application_id: Option<String>) -> (r: Option<Call>)
        ensures
            final(self)@ == identifier(known(application_id), old(self)@),
            call_of(r) == (match identifier(known(application_id), old(self)@) {
                Some(id) => Some(registration(id)),
                None => None,
            }),
    {
        let id = match application_id {
            Some(id) => Some(id),
            None => match &self.app_id {
                Some(id) => Some(id.clone()),
                None => None,
            },
        };
        match id {
            Some(id) => {
                let call = register_ping_command(id.as_str());
                self.app_id = Some(id);
                Some(call)
            },
            None => None,
        }
    }

    /// Begins the work of the plugin.
    pub fn initialize(&mut self, application_id: Option<String>) -> (r: Option<Call>)
        ensures
            final(self)@ == identifier(known(application_id), old(self)@),
            call_of(r) == (match identifier(known(application_id), old(self)@) {
                Some(id) => Some(registration(id)),
                None => None,
            }),
    {
        self.ensure_command_registered(application_id)
    }

    /// Takes a message of another plugin, and makes nothing of it.
    pub fn handle_bus_event(&self, _topic: String, _payload: Vec<u8>) -> (r: Result<(), String>)
        ensures
            r is Ok,
    {
        Ok(())
    }

    /// Ends the work of the plugin: there is nothing to end.
    pub fn shutdown(&self) -> (r: Result<(), String>)
        ensures
            r is Ok,
    {
        Ok(())
    }

    /// What the plugin does about the data of an event.
    pub fn react(&mut self, event_type: &str, event: &Value) -> (r: Option<Call>)
        ensures
            call_of(r) == reaction(event_type@, document(*event)),
            final(self)@ == identifier(taken_up(event_type@, document(*event)), old(self)@),
    {
        if same(event_type, "READY") {
            proof {
                reveal_strlit("READY");
                reveal_strlit("INTERACTION_CREATE");
                assert("READY"@.len() != "INTERACTION_CREATE"@.len());
            }
            match crate::json::text_in(crate::json::get_nested(event, "application", "id")) {
                Some(id) => {
                    self.app_id = Some(id.to_owned());
                    Some(register_ping_command(id))
                },
                None => None,
            }
        } else if same(event_type, "INTERACTION_CREATE") {
            handle_interaction(event)
        } else {
            None
        }
    }

    /// What the plugin does about an event, given its data as bytes. Data that is
    /// no JSON document is passed over.
    pub fn handle_event(&mut self, event_type: &str, payload: &Vec<u8>) -> (r: Option<Call>)
        ensures
            match parsed_bytes(payload@) {
                Some(event) => {
                    &&& call_of(r) == reaction(event_type@, event)
                    &&& final(self)@ == identifier(taken_up(event_type@, event), old(self)@)
                },
                None => r is None && final(self)@ == old(self)@,
            },
    {
        match crate::json::parse_bytes(payload.as_slice()) {
            Some(event) => self.react(event_type, &event),
            None => None,
        }
    }
}

/// Only interactions with the command `ping` are answered.
pub proof fn law_only_ping_is_answered(event: Json)
    requires
        reaction("INTERACTION_CREATE"@, event) is Some,
    ensures
        text_of(nested_member(event, "data"@, "name"@)) == Some("ping"@),
{
}

/// Every call of the plugin is one that the host sends to Discord, and so one
/// that it identifies the bot with.
pub proof fn law_calls_go_to_discord(app_id: Seq<char>, id: Seq<char>, token: Seq<char>)
    ensures
        is_discord_api(registration(app_id).url),
        is_method(registration(app_id).method),
        is_discord_api(answer(id, token).url),
        is_method(answer(id, token).method),
{
    reveal_strlit("https://discord.com/api/");
    reveal_strlit("https://discord.com/api/v10/applications/");
    reveal_strlit("https://discord.com/api/v10/interactions/");
    reveal_strlit("PUT");
    reveal_strlit("POST");
    let base = "https://discord.com/api/"@;
    let a = registration(app_id).url;
    let b = answer(id, token).url;
    assert(a.subrange(0, base.len() as int) =~= base);
    assert(b.subrange(0, base.len() as int) =~= base);
}

/// Once it is known, the identifier of the application is never forgotten: no
/// event takes it away.
pub proof fn law_identifier_is_kept(event_type: Seq<char>, event: Json, known: Option<Seq<char>>)
    requires
        known is Some,
    ensures
        identifier(taken_up(event_type, event), known) is Some,
{
}

} // verus!
