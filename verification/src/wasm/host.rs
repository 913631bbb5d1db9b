//! What a plugin can ask of its host.
use vstd::prelude::*;

use crate::config::settings::{env_opt, nonempty};
use crate::http::{failure_text, is_success, outcome, Request, RequestView};
use crate::json::Json;
use crate::paths::FilePath;
use crate::text::{decimal, decimal_text, lowercase, same, to_lowercase};
use crate::wasm::gateway::GatewayState;
use crate::wasm::kv::{composite, lookup, stored, KvError, KvStore, MAX_KEY_LEN, MAX_VALUE_LEN};
use crate::wasm::limits::{
    default_config, PluginConfig, PluginPermissions, PluginResourceLimiter,
};
use crate::wasm::requests::{
    all_mimes_accepted, attachment_views, attachments_of, attachments_request, check_method,
    check_mimes, check_request, components_of, edit_of, edit_request, is_discord_api,
    is_discord_api_url, is_method, message_of, message_request, modal_of, modal_request,
    optional_text, plugin_request, plugin_request_of, read_components, read_required_components,
    refusal, reply_of, reply_request, required_components_of, Attachment, AttachmentView,
};

verus! {

/// How grave a message in the log is.
#[derive(Clone, Copy, Debug, PartialEq, Eq, Structural)]
pub enum LogLevel {
    Error,
    Warn,
    Info,
    Debug,
    Trace,
}

/// What a plugin is given: its settings, a place for its files, and the client
/// that makes its requests.
pub struct HostContext {
    client: reqwest::Client,
    workspace: FilePath,
    config: PluginConfig,
    limiter: PluginResourceLimiter,
}

/// The contents of the result of a call.
pub open spec fn request_result(r: Result<Request, String>) -> Result<RequestView, Seq<char>> {
    match r {
        Ok(q) => Ok(q@),
        Err(e) => Err(e@),
    }
}

/// The message for a plugin that may not send requests.
pub open spec fn not_permitted() -> Seq<char> {
    "http requests are not permitted"@
}

/// The message where the token of the bot is not known.
pub open spec fn no_token() -> Seq<char> {
    "DISCORD_TOKEN not set"@
}

/// The level that a word in lower case asks for; a word that asks for none means
/// information.
pub open spec fn level_of(lowered: Seq<char>) -> LogLevel {
    if lowered == "error"@ {
        LogLevel::Error
    } else if lowered == "warn"@ {
        LogLevel::Warn
    } else if lowered == "info"@ {
        LogLevel::Info
    } else if lowered == "debug"@ {
        LogLevel::Debug
    } else if lowered == "trace"@ {
        LogLevel::Trace
    } else {
        LogLevel::Info
    }
}

/// The level that a word in lower case asks for.
pub fn log_level(lowered: &str) -> (r: LogLevel)
    ensures
        r == level_of(lowered@),
{
    if same(lowered, "error") {
        LogLevel::Error
    } else if same(lowered, "warn") {
        LogLevel::Warn
    } else if same(lowered, "info") {
        LogLevel::Info
    } else if same(lowered, "debug") {
        LogLevel::Debug
    } else if same(lowered, "trace") {
        LogLevel::Trace
    } else {
        LogLevel::Info
    }
}

/// What comes of an answer to an interaction.
pub fn reply_outcome(status: u16, text: &str) -> (r: Result<(), String>)
    ensures
        r is Ok <==> is_success(status),
        r matches Err(e) ==> e@ == failure_text("interaction reply"@, status, text@),
{
    outcome("interaction reply", status, text)
}

/// What comes of an edit of an answer.
pub fn edit_outcome(status: u16, text: &str) -> (r: Result<(), String>)
    ensures
        r is Ok <==> is_success(status),
        r matches Err(e) ==> e@ == failure_text("edit interaction message"@, status, text@),
{
    outcome("edit interaction message", status, text)
}

/// What comes of showing a form.
pub fn modal_outcome(status: u16, text: &str) -> (r: Result<(), String>)
    ensures
        r is Ok <==> is_success(status),
        r matches Err(e) ==> e@ == failure_text("show modal"@, status, text@),
{
    outcome("show modal", status, text)
}

/// The time to report, from the milliseconds since the start of 1970, if the
/// clock is past it.
pub fn now_ms(since_epoch: Option<u128>) -> (r: u64)
    ensures
        r == match since_epoch {
            Some(ms) => ms as u64,
            None => 0,
        },
{
    match since_epoch {
        Some(ms) => #[verifier::truncate]
        (ms as u64),
        None => 0,
    }
}

/// What comes of a request, given why it cannot be made, if it cannot.
pub open spec fn made(refusal: Option<Seq<char>>, request: RequestView) -> Result<
    RequestView,
    Seq<char>,
> {
    match refusal {
        Some(reason) => Err(reason),
        None => Ok(request),
    }
}

/// What comes of a request that speaks for the bot.
pub open spec fn worded(request: RequestView, token: Seq<char>) -> Result<RequestView, Seq<char>> {
    made(refusal(request.url, Some(token)), request)
}

/// What a request in a plugin's own words comes to.
pub open spec fn own_request(
    permissions: PluginPermissions,
    method: Seq<char>,
    url: Seq<char>,
    body: Seq<u8>,
    token: Option<Seq<char>>,
) -> Result<RequestView, Seq<char>> {
    if !permissions.http {
        Err(not_permitted())
    } else if !is_method(method) {
        Err("invalid HTTP method"@)
    } else {
        made(
            refusal(url, if is_discord_api(url) { token } else { None }),
            plugin_request_of(method, url, body, token),
        )
    }
}

/// What a message with attachments comes to.
pub open spec fn message_with_attachments(
    permissions: PluginPermissions,
    channel_id: u64,
    content: Seq<char>,
    attachments: Seq<AttachmentView>,
    token: Option<Seq<char>>,
) -> Result<RequestView, Seq<char>> {
    if !permissions.http {
        Err(not_permitted())
    } else {
        match token {
            None => Err(no_token()),
            Some(t) => if !all_mimes_accepted(attachments) {
                Err("builder error"@)
            } else {
                worded(attachments_of(channel_id, content, attachments, t), t)
            },
        }
    }
}

/// What a message with components comes to.
pub open spec fn message_with_components(
    permissions: PluginPermissions,
    channel_id: u64,
    content: Seq<char>,
    components: Result<Json, Seq<char>>,
    token: Option<Seq<char>>,
) -> Result<RequestView, Seq<char>> {
    if !permissions.http {
        Err(not_permitted())
    } else {
        match token {
            None => Err(no_token()),
            Some(t) => match components {
                Ok(c) => worded(message_of(channel_id, content, c, t), t),
                Err(e) => Err(e),
            },
        }
    }
}

/// What an answer to an interaction comes to.
pub open spec fn interaction_reply(
    permissions: PluginPermissions,
    interaction_id: u64,
    interaction_token: Seq<char>,
    content: Seq<char>,
    ephemeral: bool,
    token: Option<Seq<char>>,
) -> Result<RequestView, Seq<char>> {
    if !permissions.http {
        Err(not_permitted())
    } else {
        match token {
            None => Err(no_token()),
            Some(t) => worded(
                reply_of(interaction_id, interaction_token, content, ephemeral, t),
                t,
            ),
        }
    }
}

/// What an edit of an answer comes to.
pub open spec fn interaction_edit(
    permissions: PluginPermissions,
    application_id: u64,
    interaction_token: Seq<char>,
    content: Seq<char>,
    components: Result<Json, Seq<char>>,
    token: Option<Seq<char>>,
) -> Result<RequestView, Seq<char>> {
    if !permissions.http {
        Err(not_permitted())
    } else if application_id == 0 {
        Err("application id not available"@)
    } else {
        match token {
            None => Err(no_token()),
            Some(t) => match components {
                Ok(c) => worded(edit_of(application_id, interaction_token, content, c, t), t),
                Err(e) => Err(e),
            },
        }
    }
}

/// What a form to fill in comes to.
pub open spec fn interaction_modal(
    permissions: PluginPermissions,
    interaction_id: u64,
    interaction_token: Seq<char>,
    title: Seq<char>,
    custom_id: Seq<char>,
    components: Result<Json, Seq<char>>,
    token: Option<Seq<char>>,
) -> Result<RequestView, Seq<char>> {
    if !permissions.http {
        Err(not_permitted())
    } else {
        match token {
            None => Err(no_token()),
            Some(t) => match components {
                Ok(c) => worded(
                    modal_of(interaction_id, interaction_token, title, custom_id, c, t),
                    t,
                ),
                Err(e) => Err(e),
            },
        }
    }
}

/// The environment variable that a plugin sees.
pub open spec fn visible_variable(permissions: PluginPermissions, value: Option<String>) -> Option<
    Seq<char>,
> {
    if permissions.env {
        nonempty(value)
    } else {
        None
    }
}

/// What Discord answered.
pub struct Response {
    pub status: u16,
    pub body: Vec<u8>,
}

/// How an exchange with a server ended.
pub enum Exchange {
    TimedOut,
    /// It failed for the reason given.
    Failed(String),
    Answered(Response),
}

/// What a plugin is told of an exchange. An answer is passed on whatever its
/// status.
pub fn exchange_result(exchange: Exchange) -> (r: Result<Response, String>)
    ensures
        match exchange {
            Exchange::TimedOut => r matches Err(e) && e@ == "http request timed out"@,
            Exchange::Failed(reason) => r == Err::<Response, String>(reason),
            Exchange::Answered(response) => r == Ok::<Response, String>(response),
        },
{
    match exchange {
        Exchange::TimedOut => Err("http request timed out".to_owned()),
        Exchange::Failed(reason) => Err(reason),
        Exchange::Answered(response) => Ok(response),
    }
}

/// Whether an answer is worth a warning in the log.
pub fn is_rejection(status: u16) -> (r: bool)
    ensures
        r == (status >= 400),
{
    status >= 400
}

impl HostContext {
    /// Where the plugin keeps its files.
    pub closed spec fn workspace(&self) -> Seq<Seq<char>> {
        self.workspace@
    }

    /// The settings of the plugin.
    pub closed spec fn config(&self) -> PluginConfig {
        self.config
    }

    /// The limits of the plugin are those of its settings.
    pub closed spec fn wf(&self) -> bool {
        self.limiter.limits() == self.config.limits
    }

    /// What a plugin with these settings is given.
    pub fn new(client: reqwest::Client, workspace: FilePath, config: PluginConfig) -> (r:
        HostContext)
        ensures
            r.wf(),
            r.workspace() == workspace@,
            r.config() == config,
    {
        HostContext {
            client,
            workspace,
            config,
            limiter: PluginResourceLimiter::new(config.limits),
        }
    }

    /// What holds the plugin to its limits.
    pub fn limiter(&self) -> (r: PluginResourceLimiter)
        requires
            self.wf(),
        ensures
            r.limits() == self.config().limits,
    {
        self.limiter
    }

    /// A request in the plugin's own words. `token` is the token of the bot,
    /// where it is known.
    pub fn http_request(&self, method: String, url: String, body: Vec<u8>, token: Option<String>) -> (r:
        Result<Request, String>)
        ensures
            request_result(r) == own_request(
                self.config().permissions,
                method@,
                url@,
                body@,
                optional_text(token),
            ),
    {
        if !self.config.permissions.http {
            return Err("http requests are not permitted".to_owned());
        }
        let method = match check_method(method.as_str()) {
            Ok(m) => m,
            Err(e) => return Err(e),
        };
        let sent_token = if is_discord_api_url(url.as_str()) {
            match &token {
                Some(t) => Some(t.as_str()),
                None => None,
            }
        } else {
            None
        };
        match check_request(&self.client, url.as_str(), sent_token) {
            Ok(()) => Ok(plugin_request(method, url, body, token)),
            Err(e) => Err(e),
        }
    }

    /// The request, where it can be made.
    fn word(&self, request: Request, token: &str) -> (r: Result<Request, String>)
        ensures
            request_result(r) == worded(request@, token@),
    {
        match check_request(&self.client, request.url.as_str(), Some(token)) {
            Ok(()) => Ok(request),
            Err(e) => Err(e),
        }
    }

    /// The request that posts a message with attachments to a channel.
    pub fn send_channel_message_with_attachments(
        &self,
        channel_id: u64,
        content: String,
        attachments: Vec<Attachment>,
        token: Option<String>,
    ) -> (r: Result<Request, String>)
        ensures
            request_result(r) == message_with_attachments(
                self.config().permissions,
                channel_id,
                content@,
                attachment_views(attachments@),
                optional_text(token),
            ),
    {
        if !self.config.permissions.http {
            return Err("http requests are not permitted".to_owned());
        }
        let token = match token {
            Some(t) => t,
            None => return Err("DISCORD_TOKEN not set".to_owned()),
        };
        match check_mimes(&attachments) {
            Ok(()) => self.word(
                attachments_request(channel_id, content, &attachments, token.as_str()),
                token.as_str(),
            ),
            Err(e) => Err(e),
        }
    }

    /// The request that posts a message with components to a channel.
    pub fn send_channel_message_with_components(
        &self,
        channel_id: u64,
        content: String,
        components: String,
        token: Option<String>,
    ) -> (r: Result<Request, String>)
        ensures
            request_result(r) == message_with_components(
                self.config().permissions,
                channel_id,
                content@,
                components_of(components@),
                optional_text(token),
            ),
    {
        if !self.config.permissions.http {
            return Err("http requests are not permitted".to_owned());
        }
        let token = match token {
            Some(t) => t,
            None => return Err("DISCORD_TOKEN not set".to_owned()),
        };
        match read_components(components.as_str()) {
            Ok(c) => self.word(
                message_request(channel_id, content, c, token.as_str()),
                token.as_str(),
            ),
            Err(e) => Err(e),
        }
    }

    /// The request that answers an interaction with a message.
    pub fn reply_to_interaction(
        &self,
        interaction_id: u64,
        interaction_token: String,
        content: String,
        ephemeral: bool,
        token: Option<String>,
    ) -> (r: Result<Request, String>)
        ensures
            request_result(r) == interaction_reply(
                self.config().permissions,
                interaction_id,
                interaction_token@,
                content@,
                ephemeral,
                optional_text(token),
            ),
    {
        if !self.config.permissions.http {
            return Err("http requests are not permitted".to_owned());
        }
        let token = match token {
            Some(t) => t,
            None => return Err("DISCORD_TOKEN not set".to_owned()),
        };
        self.word(
            reply_request(
                interaction_id,
                interaction_token.as_str(),
                content,
                ephemeral,
                token.as_str(),
            ),
            token.as_str(),
        )
    }

    /// The request that replaces the first answer to an interaction.
    pub fn edit_interaction_message<S, V>(
        &self,
        gateway: &GatewayState<S, V>,
        interaction_token: String,
        content: String,
        components: String,
        token: Option<String>,
    ) -> (r: Result<Request, String>)
        ensures
            request_result(r) == interaction_edit(
                self.config().permissions,
                gateway.application_id,
                interaction_token@,
                content@,
                components_of(components@),
                optional_text(token),
            ),
    {
        if !self.config.permissions.http {
            return Err("http requests are not permitted".to_owned());
        }
        if gateway.application_id == 0 {
            return Err("application id not available".to_owned());
        }
        let token = match token {
            Some(t) => t,
            None => return Err("DISCORD_TOKEN not set".to_owned()),
        };
        match read_components(components.as_str()) {
            Ok(c) => self.word(
                edit_request(
                    gateway.application_id,
                    interaction_token.as_str(),
                    content,
                    c,
                    token.as_str(),
                ),
                token.as_str(),
            ),
            Err(e) => Err(e),
        }
    }

    /// The request that answers an interaction with a form to fill in.
    pub fn show_modal(
        &self,
        interaction_id: u64,
        interaction_token: String,
        title: String,
        custom_id: String,
        components: String,
        token: Option<String>,
    ) -> (r: Result<Request, String>)
        ensures
            request_result(r) == interaction_modal(
                self.config().permissions,
                interaction_id,
                interaction_token@,
                title@,
                custom_id@,
                required_components_of(components@),
                optional_text(token),
            ),
    {
        if !self.config.permissions.http {
            return Err("http requests are not permitted".to_owned());
        }
        let token = match token {
            Some(t) => t,
            None => return Err("DISCORD_TOKEN not set".to_owned()),
        };
        match read_required_components(components.as_str()) {
            Ok(c) => self.word(
                modal_request(
                    interaction_id,
                    interaction_token.as_str(),
                    title,
                    custom_id,
                    c,
                    token.as_str(),
                ),
                token.as_str(),
            ),
            Err(e) => Err(e),
        }
    }

    /// The value of an environment variable, where it is set and not empty and
    /// the plugin may read it.
    pub fn get_env(&self, value: Option<String>) -> (r: Option<String>)
        ensures
            optional_text(r) == visible_variable(self.config().permissions, value),
    {
        if !self.config.permissions.env {
            return None;
        }
        env_opt(value)
    }

    /// The round-trip time to the gateway.
    pub fn gateway_ping<S, V>(&self, gateway: &GatewayState<S, V>) -> (r: u64)
        ensures
            r == gateway.gateway_ping_ms,
    {
        gateway.gateway_ping_ms
    }

    /// The identifier of the application, once it is known.
    pub fn application_id<S, V>(&self, gateway: &GatewayState<S, V>) -> (r: Option<String>)
        ensures
            optional_text(r) == if gateway.application_id == 0 {
                None
            } else {
                Some(decimal(gateway.application_id as nat))
            },
    {
        if gateway.application_id == 0 {
            None
        } else {
            Some(decimal_text(gateway.application_id))
        }
    }

    /// How grave a message in the log is, from the word that the plugin chose, in
    /// any case of its letters.
    pub fn log(&self, level: String) -> (r: LogLevel)
        ensures
            r == level_of(lowercase(level@)),
    {
        log_level(to_lowercase(level.as_str()).as_str())
    }

    /// What is stored for a key in a scope. A plugin that may not use the store
    /// finds it empty.
    pub fn kv_get(&self, kv: &KvStore, scope: String, key: String) -> (r: Result<
        Option<Vec<u8>>,
        KvError,
    >)
        ensures
            !self.config().permissions.kv ==> r matches Ok(None),
            self.config().permissions.kv ==> match r {
                Ok(Some(v)) => lookup(kv@, scope@, key@) == Some(v@),
                Ok(None) => lookup(kv@, scope@, key@) is None,
                Err(KvError::KeyTooLong) => composite(scope@, key@).len() > MAX_KEY_LEN,
                Err(e) => e is Storage && composite(scope@, key@).len() <= MAX_KEY_LEN,
            },
            self.config().permissions.kv && composite(scope@, key@).len() > MAX_KEY_LEN ==> r is Err,
    {
        if !self.config.permissions.kv {
            return Ok(None);
        }
        kv.get(scope.as_str(), key.as_str())
    }

    /// Stores a value for a key in a scope. A plugin that may not use the store
    /// changes nothing.
    pub fn kv_set(&self, kv: &mut KvStore, scope: String, key: String, value: Vec<u8>) -> (r: Result<
        (),
        KvError,
    >)
        ensures
            !self.config().permissions.kv ==> r is Ok && final(kv)@ == old(kv)@,
            self.config().permissions.kv && r is Ok ==> final(kv)@ == stored(
                old(kv)@,
                scope@,
                key@,
                value@,
            ),
            r is Err ==> final(kv)@ == old(kv)@,
            (self.config().permissions.kv && composite(scope@, key@).len() > MAX_KEY_LEN) <==> r
                matches Err(KvError::KeyTooLong),
            (self.config().permissions.kv && composite(scope@, key@).len() <= MAX_KEY_LEN
                && value@.len() > MAX_VALUE_LEN) <==> r matches Err(KvError::ValueTooLong),
            r matches Err(e) ==> e is KeyTooLong || e is ValueTooLong || e is Storage,
            final(kv).wf() == old(kv).wf(),
            final(kv).database() == old(kv).database(),
            final(kv).saved() == old(kv).saved(),
    {
        if !self.config.permissions.kv {
            return Ok(());
        }
        kv.set(scope, key, value)
    }

    /// The file that a plugin reads.
    pub fn fs_read(&self, path: String) -> (r: Result<FilePath, String>)
        ensures
            match r {
                Ok(p) => self.config().permissions.fs_read && p@ == self.workspace().push(path@),
                Err(e) => !self.config().permissions.fs_read && e@ == "fs read is not permitted"@,
            },
    {
        if !self.config.permissions.fs_read {
            return Err("fs read is not permitted".to_owned());
        }
        Ok(self.workspace.join(path.as_str()))
    }

    /// The file that a plugin writes.
    pub fn fs_write(&self, path: String) -> (r: Result<FilePath, String>)
        ensures
            match r {
                Ok(p) => self.config().permissions.fs_write && p@ == self.workspace().push(path@),
                Err(e) => !self.config().permissions.fs_write && e@ == "fs write is not permitted"@,
            },
    {
        if !self.config.permissions.fs_write {
            return Err("fs write is not permitted".to_owned());
        }
        Ok(self.workspace.join(path.as_str()))
    }
}

/// Without the permission for it, no request of any kind leaves the host: every
/// call that would send one is refused, whatever it is given.
pub proof fn law_no_request_without_permission(
    permissions: PluginPermissions,
    id: u64,
    text1: Seq<char>,
    text2: Seq<char>,
    text3: Seq<char>,
    body: Seq<u8>,
    attachments: Seq<AttachmentView>,
    components: Result<Json, Seq<char>>,
    ephemeral: bool,
    token: Option<Seq<char>>,
)
    requires
        !permissions.http,
    ensures
        own_request(permissions, text1, text2, body, token) == Err::<RequestView, Seq<char>>(
            not_permitted(),
        ),
        message_with_attachments(permissions, id, text1, attachments, token) == Err::<
            RequestView,
            Seq<char>,
        >(not_permitted()),
        message_with_components(permissions, id, text1, components, token) == Err::<
            RequestView,
            Seq<char>,
        >(not_permitted()),
        interaction_reply(permissions, id, text1, text2, ephemeral, token) == Err::<
            RequestView,
            Seq<char>,
        >(not_permitted()),
        interaction_edit(permissions, id, text1, text2, components, token) == Err::<
            RequestView,
            Seq<char>,
        >(not_permitted()),
        interaction_modal(permissions, id, text1, text2, text3, components, token) == Err::<
            RequestView,
            Seq<char>,
        >(not_permitted()),
{
}

/// A plugin without settings of its own is granted nothing: it sends no request
/// and sees no environment variable, and may use neither files nor the store.
pub proof fn law_default_settings_grant_nothing(
    method: Seq<char>,
    url: Seq<char>,
    body: Seq<u8>,
    token: Option<Seq<char>>,
    value: Option<String>,
)
    ensures
        own_request(default_config().permissions, method, url, body, token) is Err,
        visible_variable(default_config().permissions, value) is None,
        !default_config().permissions.fs_read,
        !default_config().permissions.fs_write,
        !default_config().permissions.kv,
{
}

} // verus!
