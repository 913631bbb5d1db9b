//! Promises about the plugin that answers the command `ping`.
use serde_json::Value;
use vstd::prelude::*;
use vstd::utf8::encode_utf8;

use crate::json::{compact, document, parsed_bytes, Json};
use crate::ping::{handle_interaction, register_ping_command, Call, PingPlugin};

verus! {

/// Whether a call registers the command for an application: with all of its
/// identifier in the address, and with the one command in the body.
pub open spec fn registers(call: Call, app_id: Seq<char>) -> bool {
    &&& call.method@ == "PUT"@
    &&& call.url@ == "https://discord.com/api/v10/applications/"@ + app_id + "/commands"@
    &&& call.body@ == encode_utf8(
        compact(
            Json::Array(
                seq![
                    Json::Object(
                        map![
                            "name"@ => Json::Text("ping"@),
                            "description"@ => Json::Text("Ping!"@),
                            "type"@ => Json::Natural(1)
                        ],
                    ),
                ],
            ),
        ),
    )
}

/// Whether a call answers an interaction: with all of its identifier and of its
/// token in the address.
pub open spec fn answers(call: Call, id: Seq<char>, token: Seq<char>) -> bool {
    &&& call.method@ == "POST"@
    &&& call.url@ == "https://discord.com/api/v10/interactions/"@ + id + "/"@ + token
        + "/callback"@
    &&& call.body@ == encode_utf8(
        compact(
            Json::Object(
                map![
                    "type"@ => Json::Natural(4),
                    "data"@ => Json::Object(map!["content"@ => Json::Text("Pong!"@)])
                ],
            ),
        ),
    )
}

/// Whether an event is an interaction with a command, with an identifier and a
/// token.
pub open spec fn calls_for(
    event: Json,
    command: Seq<char>,
    id: Seq<char>,
    token: Seq<char>,
) -> bool {
    event matches Json::Object(m) && {
        &&& m.contains_key("data"@)
        &&& m["data"@] matches Json::Object(d) && d.contains_key("name"@) && d["name"@]
            == Json::Text(command)
        &&& m.contains_key("id"@) && m["id"@] == Json::Text(id)
        &&& m.contains_key("token"@) && m["token"@] == Json::Text(token)
    }
}

/// Whether an event names an application.
pub open spec fn names_application(event: Json, id: Seq<char>) -> bool {
    event matches Json::Object(m) && {
        &&& m.contains_key("application"@)
        &&& m["application"@] matches Json::Object(a) && a.contains_key("id"@) && a["id"@]
            == Json::Text(id)
    }
}

/// The command is registered for the application that was given.
pub proof fn law_registration(app_id: &str, r: Call)
    requires
        call_ensures(register_ping_command, (app_id,), r),
    ensures
        registers(r, app_id@),
{
    assert(r@.method == r.method@ && r@.url == r.url@ && r@.body == r.body@);
}

/// The command `ping` is answered, to the interaction that it came in.
pub proof fn law_ping_is_answered(
    event: &Value,
    id: Seq<char>,
    token: Seq<char>,
    r: Option<Call>,
)
    requires
        call_ensures(handle_interaction, (event,), r),
        calls_for(document(*event), "ping"@, id, token),
    ensures
        r matches Some(call) && answers(call, id, token),
{
    match r {
        Some(call) => {
            assert(call@.method == call.method@ && call@.url == call.url@ && call@.body
                == call.body@);
        },
        None => {},
    }
}

/// No other interaction is answered, nor one that has no identifier or no token.
pub proof fn law_nothing_else_is_answered(event: &Value, r: Option<Call>)
    requires
        call_ensures(handle_interaction, (event,), r),
        forall|id: Seq<char>, token: Seq<char>|
            !#[trigger] calls_for(document(*event), "ping"@, id, token),
    ensures
        r is None,
{
    if r is Some {
        match document(*event) {
            Json::Object(m) => {
                match (m["id"@], m["token"@]) {
                    (Json::Text(id), Json::Text(token)) => {
                        assert(calls_for(document(*event), "ping"@, id, token));
                    },
                    _ => {},
                }
            },
            _ => {},
        }
    }
}

/// The plugin knows no application at first.
pub proof fn law_plugin_begins(r: PingPlugin)
    requires
        call_ensures(PingPlugin::new, (), r),
    ensures
        r.app_id is None,
{
}

/// What the plugin knows of the application, where it knows it.
pub open spec fn knows(plugin: PingPlugin, id: Seq<char>) -> bool {
    plugin.app_id matches Some(known) && known@ == id
}

/// The command is registered for the application that the host knows, else for the
/// one that the plugin knows, which it then keeps; where neither knows one, nothing
/// is done. Beginning its work is the same.
pub proof fn law_command_is_registered(
    plugin: &mut PingPlugin,
    again: &mut PingPlugin,
    id: Option<String>,
    r: Option<Call>,
    begun: Option<Call>,
)
    requires
        call_ensures(PingPlugin::ensure_command_registered, (plugin, id), r),
        call_ensures(PingPlugin::initialize, (again, id), begun),
        *old(again) == *old(plugin),
    ensures
        match id {
            Some(told) => {
                &&& r matches Some(call) && registers(call, told@)
                &&& begun matches Some(call) && registers(call, told@)
                &&& knows(*final(plugin), told@) && knows(*final(again), told@)
            },
            None => match old(plugin).app_id {
                Some(known) => {
                    &&& r matches Some(call) && registers(call, known@)
                    &&& begun matches Some(call) && registers(call, known@)
                    &&& knows(*final(plugin), known@) && knows(*final(again), known@)
                },
                None => {
                    &&& r is None && begun is None
                    &&& final(plugin).app_id is None && final(again).app_id is None
                },
            },
        },
{
    match r {
        Some(call) => {
            assert(call@.method == call.method@ && call@.url == call.url@ && call@.body
                == call.body@);
        },
        None => {},
    }
    match begun {
        Some(call) => {
            assert(call@.method == call.method@ && call@.url == call.url@ && call@.body
                == call.body@);
        },
        None => {},
    }
}

/// A ready event that names an application makes the plugin register the command
/// for it and keep it.
pub proof fn law_ready_registers(
    plugin: &mut PingPlugin,
    event_type: &str,
    event: &Value,
    id: Seq<char>,
    r: Option<Call>,
)
    requires
        call_ensures(PingPlugin::react, (plugin, event_type, event), r),
        event_type@ == "READY"@,
        names_application(document(*event), id),
    ensures
        r matches Some(call) && registers(call, id),
        knows(*final(plugin), id),
{
    reveal_strlit("READY");
    reveal_strlit("INTERACTION_CREATE");
    assert("READY"@.len() != "INTERACTION_CREATE"@.len());
    match r {
        Some(call) => {
            assert(call@.method == call.method@ && call@.url == call.url@ && call@.body
                == call.body@);
        },
        None => {},
    }
}

/// An interaction is answered as an interaction is, and leaves what the plugin
/// knows.
pub proof fn law_interaction_is_answered(
    plugin: &mut PingPlugin,
    event_type: &str,
    event: &Value,
    r: Option<Call>,
    answer: Option<Call>,
)
    requires
        call_ensures(PingPlugin::react, (plugin, event_type, event), r),
        event_type@ == "INTERACTION_CREATE"@,
        call_ensures(handle_interaction, (event,), answer),
    ensures
        match answer {
            Some(a) => r matches Some(call) && call@ == a@,
            None => r is None,
        },
        final(plugin)@ == old(plugin)@,
{
    reveal_strlit("READY");
    reveal_strlit("INTERACTION_CREATE");
    assert("READY"@.len() != "INTERACTION_CREATE"@.len());
}

/// Any other event is passed over, and so is a ready event that names no
/// application.
pub proof fn law_other_events_are_passed_over(
    plugin: &mut PingPlugin,
    event_type: &str,
    event: &Value,
    r: Option<Call>,
)
    requires
        call_ensures(PingPlugin::react, (plugin, event_type, event), r),
        event_type@ != "INTERACTION_CREATE"@,
        event_type@ == "READY"@ ==> forall|id: Seq<char>| !#[trigger]
            names_application(document(*event), id),
    ensures
        r is None,
        final(plugin)@ == old(plugin)@,
{
    if event_type@ == "READY"@ {
        match document(*event) {
            Json::Object(m) => {
                match m["application"@] {
                    Json::Object(a) => {
                        match a["id"@] {
                            Json::Text(id) => {
                                assert(!names_application(document(*event), id));
                            },
                            _ => {},
                        }
                    },
                    _ => {},
                }
            },
            _ => {},
        }
    }
}

/// The data of an event counts as the document that it is, and data that is none is
/// passed over.
pub proof fn law_data_is_read(
    plugin: &mut PingPlugin,
    again: &mut PingPlugin,
    event_type: &str,
    payload: &Vec<u8>,
    event: &Value,
    r: Option<Call>,
    reacted: Option<Call>,
)
    requires
        call_ensures(PingPlugin::handle_event, (plugin, event_type, payload), r),
        call_ensures(PingPlugin::react, (again, event_type, event), reacted),
        old(again)@ == old(plugin)@,
    ensures
        parsed_bytes(payload@) is None ==> r is None && final(plugin)@ == old(plugin)@,
        parsed_bytes(payload@) == Some(document(*event)) ==> {
            &&& final(plugin)@ == final(again)@
            &&& match reacted {
                Some(a) => r matches Some(call) && call@ == a@,
                None => r is None,
            }
        },
{
}

/// A message of another plugin and the end of the work ask for nothing.
pub proof fn law_nothing_to_end(
    plugin: &PingPlugin,
    topic: String,
    payload: Vec<u8>,
    message: Result<(), String>,
    end: Result<(), String>,
)
    requires
        call_ensures(PingPlugin::handle_bus_event, (plugin, topic, payload), message),
        call_ensures(PingPlugin::shutdown, (plugin,), end),
    ensures
        message is Ok,
        end is Ok,
{
}

/// The contents of a call, and of what the plugin knows, are their fields.
pub proof fn law_call_contents(call: Call, plugin: PingPlugin)
    ensures
        call@.method == call.method@,
        call@.url == call.url@,
        call@.body == call.body@,
        plugin.app_id is None ==> plugin@ is None,
        plugin.app_id matches Some(id) ==> plugin@ == Some(id@),
{
}

} // verus!
