//! Promises about the requests that the calls of a plugin turn into.
use serde_json::Value;
use vstd::prelude::*;
use vstd::utf8::encode_utf8;

use crate::http::{
    bot_authorization, bot_headers, bot_json_headers, failure_text, header_texts, is_success, Body,
    BodyView, FormFile, Request, RequestView, Timeout,
};
use crate::json::{compact, document, parsed, Json};
use crate::text::{decimal, lowercase, trimmed};
use crate::wasm::gateway::GatewayState;
use crate::wasm::host::{
    edit_outcome, exchange_result, interaction_edit, interaction_modal, interaction_reply,
    is_rejection, level_of, log_level, message_with_attachments, message_with_components,
    modal_outcome, now_ms, own_request, reply_outcome, request_result, visible_variable, Exchange,
    HostContext, LogLevel, Response,
};
use crate::wasm::limits::PluginPermissions;
use crate::wasm::requests::{
    address_refusal, attachment_views, attachments_request, components_of, edit_request,
    is_discord_api, is_discord_api_url, is_header_value, is_method, is_token_char, message_request,
    mime_accepted, modal_request, optional_text, plugin_request, refusal, reply_request,
    required_components_of, Attachment, AttachmentView,
};

verus! {

/// The headers that go with a request that speaks for the bot and has a JSON body.
pub open spec fn spoken_headers(token: Seq<char>) -> Seq<(Seq<char>, Seq<char>)> {
    seq![("Authorization"@, "Bot "@ + token), ("Content-Type"@, "application/json"@)]
}

/// Whether a request that speaks for the bot can be made to an address.
pub open spec fn reachable(url: Seq<char>, token: Seq<char>) -> bool {
    address_refusal(url) is None && is_header_value("Bot "@ + token)
}

/// The error of a request that speaks for the bot and cannot be made.
pub open spec fn unreachable_error(url: Seq<char>) -> Seq<char> {
    match address_refusal(url) {
        Some(reason) => reason,
        None => "builder error"@,
    }
}

/// A plugin's own request carries what the plugin gave: its method, its address
/// and all of its bytes, whatever the method; and its answer may keep the plugin
/// waiting for thirty seconds.
pub proof fn law_own_request_is_carried(
    permissions: PluginPermissions,
    method: Seq<char>,
    url: Seq<char>,
    body: Seq<u8>,
    token: Option<Seq<char>>,
)
    ensures
        match own_request(permissions, method, url, body, token) {
            Ok(request) => {
                &&& request.method == method
                &&& request.url == url
                &&& request.body == BodyView::Bytes(body)
                &&& request.timeout == Some(Timeout::Answer(30))
            },
            Err(_) => true,
        },
{
}

/// A plugin's own request is made exactly where the plugin may send requests, the
/// method is one, the address takes one and, towards Discord, the token fits a
/// header; the reasons against it are given in this order.
pub proof fn law_own_request_is_made(
    permissions: PluginPermissions,
    method: Seq<char>,
    url: Seq<char>,
    body: Seq<u8>,
    token: Option<Seq<char>>,
)
    ensures
        ({
            let r = own_request(permissions, method, url, body, token);
            if !permissions.http {
                r == Err::<RequestView, Seq<char>>("http requests are not permitted"@)
            } else if !is_method(method) {
                r == Err::<RequestView, Seq<char>>("invalid HTTP method"@)
            } else if address_refusal(url) is Some {
                r == Err::<RequestView, Seq<char>>(address_refusal(url)->0)
            } else if is_discord_api(url) && token is Some && !is_header_value(
                "Bot "@ + token->0,
            ) {
                r == Err::<RequestView, Seq<char>>("builder error"@)
            } else {
                r is Ok
            }
        }),
{
}

/// The host adds nothing to a plugin's own request but, towards Discord, the token
/// where it is known, then the kind of a body that is not empty.
pub proof fn law_own_request_headers(
    permissions: PluginPermissions,
    method: Seq<char>,
    url: Seq<char>,
    body: Seq<u8>,
    token: Option<Seq<char>>,
)
    requires
        own_request(permissions, method, url, body, token) is Ok,
    ensures
        ({
            let headers = own_request(permissions, method, url, body, token)->Ok_0.headers;
            let kind = ("Content-Type"@, "application/json"@);
            if !is_discord_api(url) {
                headers == Seq::<(Seq<char>, Seq<char>)>::empty()
            } else {
                match token {
                    Some(t) => if body.len() > 0 {
                        headers == seq![("Authorization"@, "Bot "@ + t), kind]
                    } else {
                        headers == seq![("Authorization"@, "Bot "@ + t)]
                    },
                    None => if body.len() > 0 {
                        headers == seq![kind]
                    } else {
                        headers == Seq::<(Seq<char>, Seq<char>)>::empty()
                    },
                }
            }
        }),
{
    let headers = own_request(permissions, method, url, body, token)->Ok_0.headers;
    let kind = ("Content-Type"@, "application/json"@);
    if is_discord_api(url) {
        match token {
            Some(t) => {
                if body.len() > 0 {
                    assert(headers =~= seq![("Authorization"@, "Bot "@ + t), kind]);
                }
            },
            None => {
                if body.len() > 0 {
                    assert(headers =~= seq![kind]);
                }
            },
        }
    }
}

/// The addresses of Discord are those that begin with one of two texts.
pub proof fn law_addresses_of_discord(rest: Seq<char>, url: Seq<char>)
    ensures
        is_discord_api("https://discord.com/api/"@ + rest),
        is_discord_api("https://canary.discord.com/api/"@ + rest),
        is_discord_api(url) ==> exists|tail: Seq<char>|
            url == #[trigger] ("https://discord.com/api/"@ + tail) || url
                == "https://canary.discord.com/api/"@ + tail,
{
    let a = "https://discord.com/api/"@;
    let b = "https://canary.discord.com/api/"@;
    assert((a + rest).subrange(0, a.len() as int) =~= a);
    assert((b + rest).subrange(0, b.len() as int) =~= b);
    if is_discord_api(url) {
        if a.is_prefix_of(url) {
            let tail = url.skip(a.len() as int);
            assert(url =~= a + tail);
        } else {
            let tail = url.skip(b.len() as int);
            assert(url =~= b + tail);
            assert((a + tail).len() == a.len() + tail.len());
        }
    }
}

/// A message with attachments goes to its channel and says its content; it notes
/// each attachment by its number and its name, in order, and carries each with its
/// own name, its own media type and its own data.
pub proof fn law_attachments_are_carried(
    permissions: PluginPermissions,
    channel_id: u64,
    content: Seq<char>,
    attachments: Seq<AttachmentView>,
    token: Seq<char>,
)
    ensures
        match message_with_attachments(permissions, channel_id, content, attachments, Some(token)) {
            Ok(request) => {
                &&& request.method == "POST"@
                &&& request.url == "https://discord.com/api/v10/channels/"@ + decimal(
                    channel_id as nat,
                ) + "/messages"@
                &&& request.headers == seq![("Authorization"@, "Bot "@ + token)]
                &&& request.timeout == Some(Timeout::Answer(30))
                &&& request.body matches BodyView::Form { payload_json, files } && {
                    &&& files.len() == attachments.len()
                    &&& forall|i: int|
                        0 <= i < attachments.len() ==> {
                            &&& (#[trigger] files[i]).field == "files["@ + decimal(i as nat)
                                + "]"@
                            &&& files[i].filename == attachments[i].filename
                            &&& files[i].content_type == attachments[i].content_type
                            &&& files[i].data == attachments[i].data
                        }
                    &&& exists|notes: Seq<Json>|
                        {
                            &&& notes.len() == attachments.len()
                            &&& forall|i: int|
                                0 <= i < notes.len() ==> #[trigger] notes[i] == Json::Object(
                                    map![
                                        "id"@ => Json::Text(decimal(i as nat)),
                                        "filename"@ => Json::Text(attachments[i].filename),
                                        "description"@ => Json::Text(""@)
                                    ],
                                )
                            &&& payload_json == #[trigger] message_text(content, notes)
                        }
                }
            },
            Err(_) => true,
        },
{
    match message_with_attachments(permissions, channel_id, content, attachments, Some(token)) {
        Ok(request) => {
            let notes = Seq::new(
                attachments.len(),
                |i: int|
                    Json::Object(
                        map![
                            "id"@ => Json::Text(decimal(i as nat)),
                            "filename"@ => Json::Text(attachments[i].filename),
                            "description"@ => Json::Text(""@)
                        ],
                    ),
            );
            let shown = crate::wasm::requests::attachments_payload(content, attachments);
            match shown {
                Json::Object(m) => {
                    match m["attachments"@] {
                        Json::Array(items) => {
                            assert(items =~= notes);
                        },
                        _ => {},
                    }
                },
                _ => {},
            }
            assert(request.body->payload_json == message_text(content, notes));
        },
        Err(_) => {},
    }
}

/// What a message with attachments says, given its notes on them.
pub open spec fn message_text(content: Seq<char>, notes: Seq<Json>) -> Seq<char> {
    compact(
        Json::Object(map!["content"@ => Json::Text(content), "attachments"@ => Json::Array(notes)]),
    )
}

/// A message with attachments is made exactly where the plugin may send requests,
/// the token is known, every media type is accepted and the request can be made;
/// the reasons against it are given in this order.
pub proof fn law_attachments_are_sent(
    permissions: PluginPermissions,
    channel_id: u64,
    content: Seq<char>,
    attachments: Seq<AttachmentView>,
    token: Option<Seq<char>>,
)
    ensures
        ({
            let r = message_with_attachments(permissions, channel_id, content, attachments, token);
            let url = "https://discord.com/api/v10/channels/"@ + decimal(channel_id as nat)
                + "/messages"@;
            if !permissions.http {
                r == Err::<RequestView, Seq<char>>("http requests are not permitted"@)
            } else if token is None {
                r == Err::<RequestView, Seq<char>>("DISCORD_TOKEN not set"@)
            } else if !(forall|i: int|
                0 <= i < attachments.len() ==> mime_accepted(
                    #[trigger] attachments[i].content_type,
                )) {
                r == Err::<RequestView, Seq<char>>("builder error"@)
            } else if !reachable(url, token->0) {
                r == Err::<RequestView, Seq<char>>(unreachable_error(url))
            } else {
                r is Ok
            }
        }),
{
}

/// A message with components goes to its channel and says its content and the
/// components that it was given, whatever they are.
pub proof fn law_message_components_are_carried(
    permissions: PluginPermissions,
    channel_id: u64,
    content: Seq<char>,
    components: Json,
    token: Seq<char>,
)
    requires
        permissions.http,
    ensures
        ({
            let r = message_with_components(
                permissions,
                channel_id,
                content,
                Ok(components),
                Some(token),
            );
            let url = "https://discord.com/api/v10/channels/"@ + decimal(channel_id as nat)
                + "/messages"@;
            if !reachable(url, token) {
                r == Err::<RequestView, Seq<char>>(unreachable_error(url))
            } else {
                &&& r is Ok
                &&& r->Ok_0.method == "POST"@
                &&& r->Ok_0.url == url
                &&& r->Ok_0.headers == spoken_headers(token)
                &&& r->Ok_0.timeout is None
                &&& r->Ok_0.body == BodyView::Bytes(
                    encode_utf8(
                        compact(
                            Json::Object(
                                map![
                                    "content"@ => Json::Text(content),
                                    "components"@ => components
                                ],
                            ),
                        ),
                    ),
                )
            }
        }),
{
    assert(bot_json_headers(token) =~= spoken_headers(token));
}

/// An answer to an interaction goes to that interaction and says its content;
/// that only the asker sees it is said where it is so, and only there.
pub proof fn law_reply_is_carried(
    permissions: PluginPermissions,
    interaction_id: u64,
    interaction_token: Seq<char>,
    content: Seq<char>,
    ephemeral: bool,
    token: Seq<char>,
)
    requires
        permissions.http,
    ensures
        ({
            let r = interaction_reply(
                permissions,
                interaction_id,
                interaction_token,
                content,
                ephemeral,
                Some(token),
            );
            let url = "https://discord.com/api/v10/interactions/"@ + decimal(interaction_id as nat)
                + "/"@ + interaction_token + "/callback"@;
            let data = if ephemeral {
                map!["content"@ => Json::Text(content), "flags"@ => Json::Natural(64)]
            } else {
                map!["content"@ => Json::Text(content)]
            };
            if !reachable(url, token) {
                r == Err::<RequestView, Seq<char>>(unreachable_error(url))
            } else {
                &&& r is Ok
                &&& r->Ok_0.method == "POST"@
                &&& r->Ok_0.url == url
                &&& r->Ok_0.headers == spoken_headers(token)
                &&& r->Ok_0.timeout is None
                &&& r->Ok_0.body == BodyView::Bytes(
                    encode_utf8(
                        compact(
                            Json::Object(
                                map!["type"@ => Json::Natural(4), "data"@ => Json::Object(data)],
                            ),
                        ),
                    ),
                )
            }
        }),
{
    assert(bot_json_headers(token) =~= spoken_headers(token));
}

/// An edit of an answer goes to the answer of that application and interaction,
/// and says its content and the components that it was given, whatever they are.
pub proof fn law_edit_components_are_carried(
    permissions: PluginPermissions,
    application_id: u64,
    interaction_token: Seq<char>,
    content: Seq<char>,
    components: Json,
    token: Seq<char>,
)
    requires
        permissions.http,
        application_id != 0,
    ensures
        ({
            let r = interaction_edit(
                permissions,
                application_id,
                interaction_token,
                content,
                Ok(components),
                Some(token),
            );
            let url = "https://discord.com/api/v10/webhooks/"@ + decimal(application_id as nat)
                + "/"@ + interaction_token + "/messages/@original"@;
            if !reachable(url, token) {
                r == Err::<RequestView, Seq<char>>(unreachable_error(url))
            } else {
                &&& r is Ok
                &&& r->Ok_0.method == "PATCH"@
                &&& r->Ok_0.url == url
                &&& r->Ok_0.headers == spoken_headers(token)
                &&& r->Ok_0.timeout is None
                &&& r->Ok_0.body == BodyView::Bytes(
                    encode_utf8(
                        compact(
                            Json::Object(
                                map![
                                    "content"@ => Json::Text(content),
                                    "components"@ => components
                                ],
                            ),
                        ),
                    ),
                )
            }
        }),
{
    assert(bot_json_headers(token) =~= spoken_headers(token));
}

/// A form to fill in goes to its interaction and says its identifier, its title
/// and the components that it was given, whatever they are.
pub proof fn law_modal_is_carried(
    permissions: PluginPermissions,
    interaction_id: u64,
    interaction_token: Seq<char>,
    title: Seq<char>,
    custom_id: Seq<char>,
    components: Json,
    token: Seq<char>,
)
    requires
        permissions.http,
    ensures
        ({
            let r = interaction_modal(
                permissions,
                interaction_id,
                interaction_token,
                title,
                custom_id,
                Ok(components),
                Some(token),
            );
            let url = "https://discord.com/api/v10/interactions/"@ + decimal(interaction_id as nat)
                + "/"@ + interaction_token + "/callback"@;
            let data = map![
                "custom_id"@ => Json::Text(custom_id),
                "title"@ => Json::Text(title),
                "components"@ => components
            ];
            if !reachable(url, token) {
                r == Err::<RequestView, Seq<char>>(unreachable_error(url))
            } else {
                &&& r is Ok
                &&& r->Ok_0.method == "POST"@
                &&& r->Ok_0.url == url
                &&& r->Ok_0.headers == spoken_headers(token)
                &&& r->Ok_0.timeout is None
                &&& r->Ok_0.body == BodyView::Bytes(
                    encode_utf8(
                        compact(
                            Json::Object(
                                map!["type"@ => Json::Natural(9), "data"@ => Json::Object(data)],
                            ),
                        ),
                    ),
                )
            }
        }),
{
    assert(bot_json_headers(token) =~= spoken_headers(token));
}

/// Why a call that speaks for the bot is not even worded: the plugin may not send
/// requests, the application is not known to an edit, the token is not known, the
/// components are of no use. The first that holds is the one that is given.
pub proof fn law_reasons_against_a_call(
    permissions: PluginPermissions,
    id: u64,
    text1: Seq<char>,
    text2: Seq<char>,
    text3: Seq<char>,
    ephemeral: bool,
    components: Result<Json, Seq<char>>,
    reason: Seq<char>,
    token: Seq<char>,
)
    requires
        permissions.http,
    ensures
        message_with_components(permissions, id, text1, components, None) == Err::<
            RequestView,
            Seq<char>,
        >("DISCORD_TOKEN not set"@),
        interaction_reply(permissions, id, text1, text2, ephemeral, None) == Err::<
            RequestView,
            Seq<char>,
        >("DISCORD_TOKEN not set"@),
        interaction_modal(permissions, id, text1, text2, text3, components, None) == Err::<
            RequestView,
            Seq<char>,
        >("DISCORD_TOKEN not set"@),
        interaction_edit(permissions, 0, text1, text2, components, Some(token)) == Err::<
            RequestView,
            Seq<char>,
        >("application id not available"@),
        interaction_edit(permissions, 0, text1, text2, components, None) == Err::<
            RequestView,
            Seq<char>,
        >("application id not available"@),
        id != 0 ==> interaction_edit(permissions, id, text1, text2, components, None) == Err::<
            RequestView,
            Seq<char>,
        >("DISCORD_TOKEN not set"@),
        message_with_components(permissions, id, text1, Err(reason), Some(token)) == Err::<
            RequestView,
            Seq<char>,
        >(reason),
        id != 0 ==> interaction_edit(permissions, id, text1, text2, Err(reason), Some(token))
            == Err::<RequestView, Seq<char>>(reason),
        interaction_modal(permissions, id, text1, text2, text3, Err(reason), Some(token)) == Err::<
            RequestView,
            Seq<char>,
        >(reason),
{
}

/// A plugin that may send no requests gets none, whatever it asks for.
pub proof fn law_nothing_is_sent_without_permission(
    permissions: PluginPermissions,
    id: u64,
    text1: Seq<char>,
    text2: Seq<char>,
    text3: Seq<char>,
    ephemeral: bool,
    components: Result<Json, Seq<char>>,
    token: Option<Seq<char>>,
)
    requires
        !permissions.http,
    ensures
        message_with_components(permissions, id, text1, components, token) == Err::<
            RequestView,
            Seq<char>,
        >("http requests are not permitted"@),
        interaction_reply(permissions, id, text1, text2, ephemeral, token) == Err::<
            RequestView,
            Seq<char>,
        >("http requests are not permitted"@),
        interaction_edit(permissions, id, text1, text2, components, token) == Err::<
            RequestView,
            Seq<char>,
        >("http requests are not permitted"@),
        interaction_modal(permissions, id, text1, text2, text3, components, token) == Err::<
            RequestView,
            Seq<char>,
        >("http requests are not permitted"@),
{
}

/// Blank components are an empty list; others are what the text denotes, and where
/// it denotes nothing the message says so.
pub proof fn law_components_are_read(text: Seq<char>)
    ensures
        trimmed(text).len() == 0 ==> components_of(text) == Ok::<Json, Seq<char>>(
            Json::Array(Seq::empty()),
        ),
        trimmed(text).len() > 0 ==> match parsed(text) {
            Ok(j) => components_of(text) == Ok::<Json, Seq<char>>(j),
            Err(e) => components_of(text) == Err::<Json, Seq<char>>(
                "invalid components json: "@ + e,
            ),
        },
{
}

/// The components of a form have to be given.
pub proof fn law_required_components_are_read(text: Seq<char>)
    ensures
        match parsed(text) {
            Ok(j) => required_components_of(text) == Ok::<Json, Seq<char>>(j),
            Err(e) => required_components_of(text) == Err::<Json, Seq<char>>(
                "invalid components json: "@ + e,
            ),
        },
{
}

/// A request is refused for its address first, then for a token that fits no
/// header.
pub proof fn law_refusals(url: Seq<char>, token: Seq<char>)
    ensures
        address_refusal(url) is Some ==> refusal(url, Some(token)) == address_refusal(url)
            && refusal(url, None) == address_refusal(url),
        address_refusal(url) is None ==> refusal(url, None) is None,
        reachable(url, token) ==> refusal(url, Some(token)) is None,
        address_refusal(url) is None && !is_header_value("Bot "@ + token) ==> refusal(
            url,
            Some(token),
        ) == Some("builder error"@),
{
}

/// A text fits a header exactly if it holds no control character but tabs.
pub proof fn law_header_values(value: Seq<char>)
    ensures
        is_header_value(value) <==> !exists|i: int|
            0 <= i < value.len() && ((#[trigger] value[i] < ' ' && value[i] != '\t') || value[i]
                == '\x7f'),
{
    if !is_header_value(value) {
        let i = choose|i: int|
            0 <= i < value.len() && !(#[trigger] value[i] == '\t' || (value[i] >= ' ' && value[i]
                != '\x7f'));
        assert((value[i] < ' ' && value[i] != '\t') || value[i] == '\x7f');
    }
}

/// A method is named by visible ASCII characters that separate nothing, at least
/// one of them.
pub proof fn law_methods(name: Seq<char>)
    ensures
        is_method(name) <==> name.len() > 0 && forall|i: int|
            0 <= i < name.len() ==> '!' <= #[trigger] name[i] <= '~' && !separates(name[i]),
{
    assert forall|c: char| #[trigger] is_token_char(c) == ('!' <= c <= '~' && !separates(c)) by {
    }
    if name.len() > 0 && forall|i: int|
        0 <= i < name.len() ==> '!' <= #[trigger] name[i] <= '~' && !separates(name[i]) {
        assert forall|i: int| 0 <= i < name.len() implies is_token_char(#[trigger] name[i]) by {
        }
    }
}

/// Whether a character separates the parts of a header.
pub open spec fn separates(c: char) -> bool {
    ||| c == '(' || c == ')' || c == ',' || c == '/' || c == ':' || c == ';'
    ||| c == '<' || c == '=' || c == '>' || c == '?' || c == '@'
    ||| c == '[' || c == '\\' || c == ']' || c == '{' || c == '}' || c == '"'
}

/// The headers that identify the bot.
pub proof fn law_headers_of_the_bot(token: Seq<char>)
    ensures
        bot_authorization(token) == "Bot "@ + token,
        bot_headers(token) == seq![("Authorization"@, "Bot "@ + token)],
        bot_json_headers(token) == spoken_headers(token),
{
    assert(bot_json_headers(token) =~= spoken_headers(token));
}

/// A status reports success from 200 to 299.
pub proof fn law_success(status: u16)
    ensures
        is_success(status) <==> status / 100 == 2,
{
}

/// A rejected call is reported with its name, the status and the whole text of the
/// answer.
pub proof fn law_failure_is_reported(what: Seq<char>, status: u16, text: Seq<char>)
    ensures
        failure_text(what, status, text) == what + (" failed ("@ + (decimal(status as nat) + (
        "): "@ + text))),
{
    assert(failure_text(what, status, text) =~= what + (" failed ("@ + (decimal(status as nat) + (
    "): "@ + text))));
}

/// A plugin sees an environment variable exactly if it may and the variable is set
/// and not empty; it then sees all of it.
pub proof fn law_visible_variables(permissions: PluginPermissions, value: Option<String>)
    ensures
        match value {
            Some(v) => if permissions.env && v@.len() > 0 {
                visible_variable(permissions, value) == Some(v@)
            } else {
                visible_variable(permissions, value) is None
            },
            None => visible_variable(permissions, value) is None,
        },
{
}

/// Each level of the log has its word; any other word means information.
pub proof fn law_log_levels(word: Seq<char>)
    ensures
        level_of("error"@) == LogLevel::Error,
        level_of("warn"@) == LogLevel::Warn,
        level_of("info"@) == LogLevel::Info,
        level_of("debug"@) == LogLevel::Debug,
        level_of("trace"@) == LogLevel::Trace,
        word != "error"@ && word != "warn"@ && word != "debug"@ && word != "trace"@ ==> level_of(
            word,
        ) == LogLevel::Info,
{
    reveal_strlit("error");
    reveal_strlit("warn");
    reveal_strlit("info");
    reveal_strlit("debug");
    reveal_strlit("trace");
    assert("error"@[0] == 'e' && "debug"@[0] == 'd' && "trace"@[0] == 't');
    assert("warn"@[0] == 'w' && "info"@[0] == 'i');
}

/// The contents of a request are its fields.
pub proof fn law_request_contents(r: Request, i: int)
    ensures
        r@.method == r.method@,
        r@.url == r.url@,
        r@.timeout == r.timeout,
        r@.headers.len() == r.headers@.len(),
        0 <= i < r.headers@.len() ==> r@.headers[i] == (r.headers@[i].0@, r.headers@[i].1@),
        r@.headers == header_texts(r.headers@),
        match r.body {
            Body::Empty => r@.body == BodyView::Empty,
            Body::Bytes(b) => r@.body == BodyView::Bytes(b@),
            Body::Form { payload_json, files } => match r@.body {
                BodyView::Form { payload_json: text, files: parts } => {
                    &&& text == payload_json@
                    &&& parts.len() == files@.len()
                    &&& 0 <= i < files@.len() ==> parts[i].field == files@[i].field@
                        && parts[i].filename == files@[i].filename@ && parts[i].content_type
                        == files@[i].content_type@ && parts[i].data == files@[i].data@
                },
                _ => false,
            },
        },
{
}

/// The contents of the result of a call are those of the request or of the error.
pub proof fn law_result_contents(r: Request, e: String, t: String)
    ensures
        request_result(Ok(r)) == Ok::<RequestView, Seq<char>>(r@),
        request_result(Err(e)) == Err::<RequestView, Seq<char>>(e@),
        optional_text(Some(t)) == Some(t@),
        optional_text(None) is None,
{
}

/// The contents of a list of attachments are those of its attachments, in order.
pub proof fn law_attachment_contents(attachments: Seq<Attachment>, i: int)
    requires
        0 <= i < attachments.len(),
    ensures
        attachment_views(attachments).len() == attachments.len(),
        attachment_views(attachments)[i].filename == attachments[i].filename@,
        attachment_views(attachments)[i].content_type == attachments[i].content_type@,
        attachment_views(attachments)[i].data == attachments[i].data@,
{
}

/// The contents of a file of a form are its fields.
pub proof fn law_form_file_contents(f: FormFile)
    ensures
        f@.field == f.field@,
        f@.filename == f.filename@,
        f@.content_type == f.content_type@,
        f@.data == f.data@,
{
}

/// A plugin that asks for a request in its own words gets one with its method, its
/// address and all of its bytes.
pub proof fn law_http_request_is_carried(
    host: &HostContext,
    method: String,
    url: String,
    body: Vec<u8>,
    token: Option<String>,
    r: Result<Request, String>,
)
    requires
        call_ensures(HostContext::http_request, (host, method, url, body, token), r),
    ensures
        r matches Ok(request) ==> {
            &&& host.config().permissions.http
            &&& request.method@ == method@
            &&& request.url@ == url@
            &&& request.body matches Body::Bytes(bytes) && bytes@ == body@
            &&& request.timeout == Some(Timeout::Answer(30))
        },
        !host.config().permissions.http ==> (r matches Err(e) && e@
            == "http requests are not permitted"@),
        host.config().permissions.http && is_method(method@) && address_refusal(url@) is None && (
        token matches Some(t) ==> is_header_value("Bot "@ + t@)) ==> r is Ok,
{
    let words = match token {
        Some(t) => Some(t@),
        None => None,
    };
    law_own_request_is_carried(host.config().permissions, method@, url@, body@, words);
    law_own_request_is_made(host.config().permissions, method@, url@, body@, words);
}

/// The token of the bot goes along with a plugin's own request exactly if the
/// request goes to Discord.
pub proof fn law_http_request_token(
    host: &HostContext,
    method: String,
    url: String,
    body: Vec<u8>,
    token: String,
    r: Result<Request, String>,
)
    requires
        call_ensures(HostContext::http_request, (host, method, url, body, Some(token)), r),
        r is Ok,
    ensures
        is_discord_api(url@) ==> r->Ok_0.headers@.len() > 0 && r->Ok_0.headers@[0].0@
            == "Authorization"@ && r->Ok_0.headers@[0].1@ == "Bot "@ + token@,
        is_discord_api(url@) && body@.len() > 0 ==> r->Ok_0.headers@.len() == 2
            && r->Ok_0.headers@[1].0@ == "Content-Type"@ && r->Ok_0.headers@[1].1@
            == "application/json"@,
        is_discord_api(url@) && body@.len() == 0 ==> r->Ok_0.headers@.len() == 1,
        !is_discord_api(url@) ==> r->Ok_0.headers@.len() == 0,
{
    law_own_request_headers(host.config().permissions, method@, url@, body@, Some(token@));
    let request = r->Ok_0;
    assert(header_texts(request.headers@) == request@.headers);
    assert(header_texts(request.headers@).len() == request.headers@.len());
    if request.headers@.len() > 0 {
        assert(header_texts(request.headers@)[0] == (
            request.headers@[0].0@,
            request.headers@[0].1@,
        ));
    }
    if request.headers@.len() > 1 {
        assert(header_texts(request.headers@)[1] == (
            request.headers@[1].0@,
            request.headers@[1].1@,
        ));
    }
}

/// A plugin that posts attachments gets a form in which each attachment has its
/// own name, its own media type and its own data.
pub proof fn law_posted_attachments_are_carried(
    host: &HostContext,
    channel_id: u64,
    content: String,
    attachments: Vec<Attachment>,
    token: Option<String>,
    r: Result<Request, String>,
    i: int,
)
    requires
        call_ensures(
            HostContext::send_channel_message_with_attachments,
            (host, channel_id, content, attachments, token),
            r,
        ),
    ensures
        r matches Ok(request) ==> {
            &&& host.config().permissions.http
            &&& request.url@ == "https://discord.com/api/v10/channels/"@ + decimal(
                channel_id as nat,
            ) + "/messages"@
            &&& request.body matches Body::Form { payload_json, files } && {
                &&& files@.len() == attachments@.len()
                &&& 0 <= i < files@.len() ==> {
                    &&& files@[i].field@ == "files["@ + decimal(i as nat) + "]"@
                    &&& files@[i].filename@ == attachments@[i].filename@
                    &&& files@[i].content_type@ == attachments@[i].content_type@
                    &&& files@[i].data@ == attachments@[i].data@
                }
            }
        },
        !host.config().permissions.http ==> (r matches Err(e) && e@
            == "http requests are not permitted"@),
        host.config().permissions.http && token is None ==> (r matches Err(e) && e@
            == "DISCORD_TOKEN not set"@),
{
    let views = attachment_views(attachments@);
    match token {
        Some(t) if host.config().permissions.http => {
            law_attachments_are_carried(
                host.config().permissions,
                channel_id,
                content@,
                views,
                t@,
            );
            match r {
                Ok(request) => {
                    match request.body {
                        Body::Form { payload_json, files } => {
                            let parts = request@.body->files;
                            assert(parts.len() == files@.len());
                            if 0 <= i < files@.len() {
                                assert(parts[i] == files@[i]@);
                            }
                        },
                        _ => {},
                    }
                },
                Err(_) => {},
            }
        },
        _ => {},
    }
}

/// A plugin that posts components gets a request that says its content and what
/// its components denote.
pub proof fn law_posted_components_are_carried(
    host: &HostContext,
    channel_id: u64,
    content: String,
    components: String,
    token: Option<String>,
    given: Json,
    r: Result<Request, String>,
)
    requires
        call_ensures(
            HostContext::send_channel_message_with_components,
            (host, channel_id, content, components, token),
            r,
        ),
        trimmed(components@).len() > 0,
        parsed(components@) == Ok::<Json, Seq<char>>(given),
    ensures
        r is Ok <==> host.config().permissions.http && (token matches Some(t) && reachable(
            "https://discord.com/api/v10/channels/"@ + decimal(channel_id as nat) + "/messages"@,
            t@,
        )),
        r is Ok ==> r->Ok_0.method@ == "POST"@,
        r is Ok ==> r->Ok_0.url@ == "https://discord.com/api/v10/channels/"@ + decimal(channel_id as nat)
            + "/messages"@,
        r is Ok ==> r->Ok_0@.headers == spoken_headers(token->0@),
        r is Ok ==> (r->Ok_0.body matches Body::Bytes(bytes) && bytes@ == encode_utf8(
            compact(
                Json::Object(
                    map!["content"@ => Json::Text(content@), "components"@ => given],
                ),
            ),
        )),
{
    match token {
        Some(t) if host.config().permissions.http => {
            law_message_components_are_carried(
                host.config().permissions,
                channel_id,
                content@,
                given,
                t@,
            );
        },
        _ => {},
    }
}

/// A plugin that edits an answer gets a request that says its content and what
/// its components denote.
pub proof fn law_edited_components_are_carried<S, V>(
    host: &HostContext,
    gateway: &GatewayState<S, V>,
    interaction_token: String,
    content: String,
    components: String,
    token: Option<String>,
    given: Json,
    r: Result<Request, String>,
)
    requires
        call_ensures(
            HostContext::edit_interaction_message::<S, V>,
            (host, gateway, interaction_token, content, components, token),
            r,
        ),
        trimmed(components@).len() > 0,
        parsed(components@) == Ok::<Json, Seq<char>>(given),
    ensures
        r is Ok <==> host.config().permissions.http && gateway.application_id != 0 && (token matches Some(t) && reachable(
            "https://discord.com/api/v10/webhooks/"@ + decimal(gateway.application_id as nat) + "/"@
                + interaction_token@ + "/messages/@original"@,
            t@,
        )),
        r is Ok ==> r->Ok_0.method@ == "PATCH"@,
        r is Ok ==> r->Ok_0.url@ == "https://discord.com/api/v10/webhooks/"@ + decimal(
            gateway.application_id as nat,
        ) + "/"@ + interaction_token@ + "/messages/@original"@,
        r is Ok ==> r->Ok_0@.headers == spoken_headers(token->0@),
        r is Ok ==> (r->Ok_0.body matches Body::Bytes(bytes) && bytes@ == encode_utf8(
            compact(
                Json::Object(
                    map!["content"@ => Json::Text(content@), "components"@ => given],
                ),
            ),
        )),
{
    match token {
        Some(t) if host.config().permissions.http && gateway.application_id != 0 => {
            law_edit_components_are_carried(
                host.config().permissions,
                gateway.application_id,
                interaction_token@,
                content@,
                given,
                t@,
            );
        },
        _ => {},
    }
}

/// A plugin that answers an interaction gets a request that says its content.
pub proof fn law_answer_is_carried(
    host: &HostContext,
    interaction_id: u64,
    interaction_token: String,
    content: String,
    ephemeral: bool,
    token: Option<String>,
    r: Result<Request, String>,
)
    requires
        call_ensures(
            HostContext::reply_to_interaction,
            (host, interaction_id, interaction_token, content, ephemeral, token),
            r,
        ),
    ensures
        r is Ok <==> host.config().permissions.http && (token matches Some(t) && reachable(
            "https://discord.com/api/v10/interactions/"@ + decimal(interaction_id as nat) + "/"@
                + interaction_token@ + "/callback"@,
            t@,
        )),
        r is Ok ==> r->Ok_0.method@ == "POST"@,
        r is Ok ==> r->Ok_0.url@ == "https://discord.com/api/v10/interactions/"@ + decimal(
            interaction_id as nat,
        ) + "/"@ + interaction_token@ + "/callback"@,
        r is Ok ==> r->Ok_0@.headers == spoken_headers(token->0@),
        r is Ok ==> (r->Ok_0.body matches Body::Bytes(bytes) && bytes@ == encode_utf8(
            compact(
                Json::Object(
                    map![
                        "type"@ => Json::Natural(4),
                        "data"@ => Json::Object(
                            if ephemeral {
                                map![
                                    "content"@ => Json::Text(content@),
                                    "flags"@ => Json::Natural(64)
                                ]
                            } else {
                                map!["content"@ => Json::Text(content@)]
                            },
                        )
                    ],
                ),
            ),
        )),
{
    match token {
        Some(t) if host.config().permissions.http => {
            law_reply_is_carried(
                host.config().permissions,
                interaction_id,
                interaction_token@,
                content@,
                ephemeral,
                t@,
            );
        },
        _ => {},
    }
}

/// A plugin that shows a form gets a request that says its identifier, its title
/// and what its components denote.
pub proof fn law_form_is_carried(
    host: &HostContext,
    interaction_id: u64,
    interaction_token: String,
    custom_id: String,
    title: String,
    components: String,
    token: Option<String>,
    given: Json,
    r: Result<Request, String>,
)
    requires
        call_ensures(
            HostContext::show_modal,
            (host, interaction_id, interaction_token, title, custom_id, components, token),
            r,
        ),
        parsed(components@) == Ok::<Json, Seq<char>>(given),
    ensures
        r is Ok <==> host.config().permissions.http && (token matches Some(t) && reachable(
            "https://discord.com/api/v10/interactions/"@ + decimal(interaction_id as nat) + "/"@
                + interaction_token@ + "/callback"@,
            t@,
        )),
        r is Ok ==> r->Ok_0.method@ == "POST"@,
        r is Ok ==> r->Ok_0.url@ == "https://discord.com/api/v10/interactions/"@ + decimal(
            interaction_id as nat,
        ) + "/"@ + interaction_token@ + "/callback"@,
        r is Ok ==> r->Ok_0@.headers == spoken_headers(token->0@),
        r is Ok ==> (r->Ok_0.body matches Body::Bytes(bytes) && bytes@ == encode_utf8(
            compact(
                Json::Object(
                    map![
                        "type"@ => Json::Natural(9),
                        "data"@ => Json::Object(
                            map![
                                "custom_id"@ => Json::Text(custom_id@),
                                "title"@ => Json::Text(title@),
                                "components"@ => given
                            ],
                        )
                    ],
                ),
            ),
        )),
{
    match token {
        Some(t) if host.config().permissions.http => {
            law_modal_is_carried(
                host.config().permissions,
                interaction_id,
                interaction_token@,
                title@,
                custom_id@,
                given,
                t@,
            );
        },
        _ => {},
    }
}

/// What comes of a call that was answered: nothing but success from 200 to 299,
/// else an error that names the call.
pub proof fn law_outcomes(
    status: u16,
    text: &str,
    reply: Result<(), String>,
    edit: Result<(), String>,
    modal: Result<(), String>,
)
    requires
        call_ensures(reply_outcome, (status, text), reply),
        call_ensures(edit_outcome, (status, text), edit),
        call_ensures(modal_outcome, (status, text), modal),
    ensures
        200 <= status < 300 ==> reply is Ok && edit is Ok && modal is Ok,
        !(200 <= status < 300) ==> {
            let rest = " failed ("@ + (decimal(status as nat) + ("): "@ + text@));
            &&& reply matches Err(e) && e@ == "interaction reply"@ + rest
            &&& edit matches Err(e) && e@ == "edit interaction message"@ + rest
            &&& modal matches Err(e) && e@ == "show modal"@ + rest
        },
{
    law_failure_is_reported("interaction reply"@, status, text@);
    law_failure_is_reported("edit interaction message"@, status, text@);
    law_failure_is_reported("show modal"@, status, text@);
}

/// An answer in time is handed on as it came, and so is a fault.
pub proof fn law_exchanges(exchange: Exchange, r: Result<Response, String>)
    requires
        call_ensures(exchange_result, (exchange,), r),
    ensures
        match exchange {
            Exchange::TimedOut => r matches Err(e) && e@ == "http request timed out"@,
            Exchange::Failed(reason) => r matches Err(e) && e == reason,
            Exchange::Answered(answer) => r matches Ok(response) && response == answer,
        },
{
}

/// An answer is worth a warning from status 400 on.
pub proof fn law_rejections(status: u16, r: bool)
    requires
        call_ensures(is_rejection, (status,), r),
    ensures
        r <==> status >= 400,
{
}

/// The time is reported by its low 64 bits, which is in full while it fits, and as
/// zero where the clock is off.
pub proof fn law_time_is_kept(since_epoch: Option<u128>, r: u64)
    requires
        call_ensures(now_ms, (since_epoch,), r),
    ensures
        match since_epoch {
            Some(ms) => r == ms as int % 18_446_744_073_709_551_616,
            None => r == 0,
        },
{
    match since_epoch {
        Some(ms) => {
            assert(ms as u64 == ms % 18_446_744_073_709_551_616u128) by (bit_vector);
        },
        None => {},
    }
}

/// What a plugin asks of its host about the bot is what the gateway knows.
pub proof fn law_host_tells_what_is_known<S, V>(
    host: &HostContext,
    gateway: &GatewayState<S, V>,
    ping: u64,
    id: Option<String>,
)
    requires
        call_ensures(HostContext::gateway_ping::<S, V>, (host, gateway), ping),
        call_ensures(HostContext::application_id::<S, V>, (host, gateway), id),
    ensures
        ping == gateway.gateway_ping_ms,
        gateway.application_id == 0 ==> id is None,
        gateway.application_id != 0 ==> (id matches Some(text) && text@ == decimal(
            gateway.application_id as nat,
        )),
{
}

/// The word for a level of the log counts in any case of its letters.
pub proof fn law_log_word_is_read(
    host: &HostContext,
    word: String,
    lowered: &str,
    r: LogLevel,
    level: LogLevel,
)
    requires
        call_ensures(HostContext::log, (host, word), r),
        call_ensures(log_level, (lowered,), level),
    ensures
        r == level_of(lowercase(word@)),
        level == level_of(lowered@),
{
}

/// A plugin sees an environment variable exactly if it may and the variable is set
/// and not empty; it then sees all of it.
pub proof fn law_variable_is_shown(
    host: &HostContext,
    value: Option<String>,
    r: Option<String>,
)
    requires
        call_ensures(HostContext::get_env, (host, value), r),
    ensures
        match r {
            Some(shown) => host.config().permissions.env && (value matches Some(v) && v@ == shown@
                && v@.len() > 0),
            None => !host.config().permissions.env || (value matches Some(v) ==> v@.len() == 0),
        },
{
    law_visible_variables(host.config().permissions, value);
}

/// Attachments are posted exactly where the plugin may send requests, the token is
/// known, every media type is accepted and the request can be made; they come with
/// the content and with a note on each.
pub proof fn law_posted_attachments_are_noted(
    host: &HostContext,
    channel_id: u64,
    content: String,
    attachments: Vec<Attachment>,
    token: Option<String>,
    r: Result<Request, String>,
)
    requires
        call_ensures(
            HostContext::send_channel_message_with_attachments,
            (host, channel_id, content, attachments, token),
            r,
        ),
    ensures
        r is Ok <==> host.config().permissions.http && (forall|i: int|
            0 <= i < attachments@.len() ==> mime_accepted(
                (#[trigger] attachments@[i]).content_type@,
            )) && (token matches Some(t) && reachable(
            "https://discord.com/api/v10/channels/"@ + decimal(channel_id as nat) + "/messages"@,
            t@,
        )),
        r matches Ok(request) ==> {
            &&& request.method@ == "POST"@
            &&& request@.headers == seq![("Authorization"@, "Bot "@ + token->0@)]
            &&& request.timeout == Some(Timeout::Answer(30))
            &&& request.body matches Body::Form { payload_json, files } && exists|notes: Seq<Json>|
                {
                    &&& notes.len() == attachments@.len()
                    &&& forall|i: int|
                        0 <= i < notes.len() ==> #[trigger] notes[i] == Json::Object(
                            map![
                                "id"@ => Json::Text(decimal(i as nat)),
                                "filename"@ => Json::Text(attachments@[i].filename@),
                                "description"@ => Json::Text(""@)
                            ],
                        )
                    &&& payload_json@ == #[trigger] message_text(content@, notes)
                }
        },
{
    let views = attachment_views(attachments@);
    assert(forall|i: int|
        0 <= i < views.len() ==> views[i].content_type == attachments@[i].content_type@);
    if forall|i: int|
        0 <= i < views.len() ==> mime_accepted(#[trigger] views[i].content_type) {
        assert forall|i: int| 0 <= i < attachments@.len() implies mime_accepted(
            (#[trigger] attachments@[i]).content_type@,
        ) by {
            assert(mime_accepted(views[i].content_type));
        }
    }
    match token {
        Some(t) if host.config().permissions.http => {
            law_attachments_are_sent(
                host.config().permissions,
                channel_id,
                content@,
                views,
                Some(t@),
            );
            law_attachments_are_carried(
                host.config().permissions,
                channel_id,
                content@,
                views,
                t@,
            );
        },
        _ => {},
    }
}

/// Blank components are as good as an empty list of them.
pub proof fn law_blank_components_are_none<S, V>(
    host: &HostContext,
    gateway: &GatewayState<S, V>,
    id: u64,
    interaction_token: String,
    content: String,
    components: String,
    token: Option<String>,
    posted: Result<Request, String>,
    edited: Result<Request, String>,
)
    requires
        trimmed(components@).len() == 0,
        call_ensures(
            HostContext::send_channel_message_with_components,
            (host, id, content, components, token),
            posted,
        ),
        call_ensures(
            HostContext::edit_interaction_message::<S, V>,
            (host, gateway, interaction_token, content, components, token),
            edited,
        ),
    ensures
        ({
            let text = encode_utf8(
                compact(
                    Json::Object(
                        map![
                            "content"@ => Json::Text(content@),
                            "components"@ => Json::Array(Seq::empty())
                        ],
                    ),
                ),
            );
            &&& posted matches Ok(request) ==> (request.body matches Body::Bytes(bytes) && bytes@
                == text)
            &&& edited matches Ok(request) ==> (request.body matches Body::Bytes(bytes) && bytes@
                == text)
        }),
{
    let none = Json::Array(Seq::empty());
    match token {
        Some(t) if host.config().permissions.http => {
            law_message_components_are_carried(host.config().permissions, id, content@, none, t@);
            if gateway.application_id != 0 {
                law_edit_components_are_carried(
                    host.config().permissions,
                    gateway.application_id,
                    interaction_token@,
                    content@,
                    none,
                    t@,
                );
            }
        },
        _ => {},
    }
}

/// A request in a plugin's own words carries its method, its address and all of
/// its bytes, and the token exactly if it goes to Discord.
pub proof fn law_plugin_request_is_carried(
    method: String,
    url: String,
    body: Vec<u8>,
    token: Option<String>,
    address: &str,
    discord: bool,
    r: Request,
)
    requires
        call_ensures(plugin_request, (method, url, body, token), r),
        address@ == url@,
        call_ensures(is_discord_api_url, (address,), discord),
    ensures
        r.method@ == method@,
        r.url@ == url@,
        r.body matches Body::Bytes(bytes) && bytes@ == body@,
        r.timeout == Some(Timeout::Answer(30)),
        !discord ==> r@.headers.len() == 0,
        discord && token is Some ==> r@.headers.len() > 0 && r@.headers[0] == (
            "Authorization"@,
            "Bot "@ + token->0@,
        ),
        discord && body@.len() > 0 ==> r@.headers.len() > 0 && r@.headers.last() == (
            "Content-Type"@,
            "application/json"@,
        ),
{
}

/// Whether what is sent is the text of an object with these members.
pub open spec fn sent_as(body: Body, m: Map<Seq<char>, Json>) -> bool {
    body matches Body::Bytes(bytes) && bytes@ == encode_utf8(compact(Json::Object(m)))
}

/// A message with components says its content and the components.
pub proof fn law_message_request(
    channel_id: u64,
    content: String,
    components: Value,
    token: &str,
    r: Request,
)
    requires
        call_ensures(message_request, (channel_id, content, components, token), r),
    ensures
        r.method@ == "POST"@,
        r.url@ == "https://discord.com/api/v10/channels/"@ + decimal(channel_id as nat)
            + "/messages"@,
        r@.headers == spoken_headers(token@),
        r.timeout is None,
        sent_as(
            r.body,
            map!["content"@ => Json::Text(content@), "components"@ => document(components)],
        ),
{
    law_headers_of_the_bot(token@);
    assert(r@.timeout == r.timeout);
}

/// An edit of an answer says its content and the components.
pub proof fn law_edit_request(
    application_id: u64,
    interaction_token: &str,
    content: String,
    components: Value,
    token: &str,
    r: Request,
)
    requires
        call_ensures(
            edit_request,
            (application_id, interaction_token, content, components, token),
            r,
        ),
    ensures
        r.method@ == "PATCH"@,
        r.url@ == "https://discord.com/api/v10/webhooks/"@ + decimal(application_id as nat) + "/"@
            + interaction_token@ + "/messages/@original"@,
        r@.headers == spoken_headers(token@),
        r.timeout is None,
        sent_as(
            r.body,
            map!["content"@ => Json::Text(content@), "components"@ => document(components)],
        ),
{
    law_headers_of_the_bot(token@);
    assert(r@.timeout == r.timeout);
}

/// A form says its identifier, its title and its components.
pub proof fn law_modal_request(
    interaction_id: u64,
    interaction_token: &str,
    title: String,
    custom_id: String,
    components: Value,
    token: &str,
    r: Request,
)
    requires
        call_ensures(
            modal_request,
            (interaction_id, interaction_token, title, custom_id, components, token),
            r,
        ),
    ensures
        r.method@ == "POST"@,
        r.url@ == "https://discord.com/api/v10/interactions/"@ + decimal(interaction_id as nat)
            + "/"@ + interaction_token@ + "/callback"@,
        r@.headers == spoken_headers(token@),
        r.timeout is None,
        sent_as(
            r.body,
            map![
                "type"@ => Json::Natural(9),
                "data"@ => Json::Object(
                    map![
                        "custom_id"@ => Json::Text(custom_id@),
                        "title"@ => Json::Text(title@),
                        "components"@ => document(components)
                    ],
                )
            ],
        ),
{
    law_headers_of_the_bot(token@);
    assert(r@.timeout == r.timeout);
}

/// An answer says its content, and that only the asker sees it where it is so.
pub proof fn law_reply_request(
    interaction_id: u64,
    interaction_token: &str,
    content: String,
    ephemeral: bool,
    token: &str,
    r: Request,
)
    requires
        call_ensures(
            reply_request,
            (interaction_id, interaction_token, content, ephemeral, token),
            r,
        ),
    ensures
        r.method@ == "POST"@,
        r.url@ == "https://discord.com/api/v10/interactions/"@ + decimal(interaction_id as nat)
            + "/"@ + interaction_token@ + "/callback"@,
        r@.headers == spoken_headers(token@),
        r.timeout is None,
        ephemeral ==> sent_as(
            r.body,
            map![
                "type"@ => Json::Natural(4),
                "data"@ => Json::Object(
                    map!["content"@ => Json::Text(content@), "flags"@ => Json::Natural(64)],
                )
            ],
        ),
        !ephemeral ==> sent_as(
            r.body,
            map![
                "type"@ => Json::Natural(4),
                "data"@ => Json::Object(map!["content"@ => Json::Text(content@)])
            ],
        ),
{
    law_headers_of_the_bot(token@);
    assert(r@.timeout == r.timeout);
}

/// A message with attachments has a file for each, with its own name, its own media
/// type and its own data.
pub proof fn law_attachments_request(
    channel_id: u64,
    content: String,
    attachments: &Vec<Attachment>,
    token: &str,
    r: Request,
    i: int,
)
    requires
        call_ensures(attachments_request, (channel_id, content, attachments, token), r),
    ensures
        r.method@ == "POST"@,
        r.url@ == "https://discord.com/api/v10/channels/"@ + decimal(channel_id as nat)
            + "/messages"@,
        r@.headers == seq![("Authorization"@, "Bot "@ + token@)],
        r.timeout == Some(Timeout::Answer(30)),
        r.body matches Body::Form { payload_json, files } && {
            &&& files@.len() == attachments@.len()
            &&& 0 <= i < files@.len() ==> {
                &&& files@[i].field@ == "files["@ + decimal(i as nat) + "]"@
                &&& files@[i].filename@ == attachments@[i].filename@
                &&& files@[i].content_type@ == attachments@[i].content_type@
                &&& files@[i].data@ == attachments@[i].data@
            }
        },
{
    assert(r@.timeout == r.timeout);
    match r.body {
        Body::Form { payload_json, files } => {
            let parts = r@.body->files;
            assert(parts.len() == files@.len());
            if 0 <= i < files@.len() {
                assert(parts[i] == files@[i]@);
            }
        },
        _ => {},
    }
}

/// An address is told to be one of Discord exactly if it begins like one.
pub proof fn law_discord_addresses_are_told(url: &str, r: bool)
    requires
        call_ensures(is_discord_api_url, (url,), r),
    ensures
        r <==> exists|tail: Seq<char>|
            url@ == #[trigger] ("https://discord.com/api/"@ + tail) || url@
                == "https://canary.discord.com/api/"@ + tail,
{
    law_addresses_of_discord(Seq::empty(), url@);
    if exists|tail: Seq<char>|
        url@ == #[trigger] ("https://discord.com/api/"@ + tail) || url@
            == "https://canary.discord.com/api/"@ + tail {
        let tail = choose|tail: Seq<char>|
            url@ == #[trigger] ("https://discord.com/api/"@ + tail) || url@
                == "https://canary.discord.com/api/"@ + tail;
        law_addresses_of_discord(tail, url@);
    }
}

} // verus!
