//! What the bot does with what the gateway sends.
use serde_json::Value;
use twilight_model::gateway::event::GatewayEventDeserializer;
use twilight_model::gateway::payload::incoming::{VoiceServerUpdate, VoiceStateUpdate};
use vstd::prelude::*;

use crate::http::{authorize, bot_headers, Body, BodyView, Request, RequestView, Timeout};
use crate::json::{
    compact, document, identifier_of, member, nested_member, parsed, parsed_bytes, Json,
};
use crate::text::same;

verus! {

#[verifier::external_type_specification]
#[verifier::external_body]
pub struct ExVoiceStateUpdate(VoiceStateUpdate);

#[verifier::external_type_specification]
#[verifier::external_body]
pub struct ExVoiceServerUpdate(VoiceServerUpdate);

/// Where the recommended number of shards is asked for.
pub const GATEWAY_BOT_URL: &'static str = "https://discord.com/api/v10/gateway/bot";

/// How long that question may take, in seconds.
pub const HTTP_TIMEOUT_SECONDS: u64 = 15;

/// The groups of events that the bot subscribes to.
#[derive(Clone, Copy, Debug, PartialEq, Eq, Structural)]
pub enum Intent {
    GuildMessages,
    MessageContent,
    GuildVoiceStates,
}

/// The opcode and the event name at the head of a gateway frame.
pub struct FrameHeader {
    pub op: u8,
    pub event_type: Option<String>,
}

/// An event that the voice driver takes part in.
pub enum VoiceEvent {
    State(Box<VoiceStateUpdate>),
    Server(VoiceServerUpdate),
}

/// What the first event of a session says about the bot itself.
#[derive(Clone, Copy, Debug, PartialEq, Eq, Structural)]
pub struct Ready {
    /// The user that the voice driver speaks for; never zero.
    pub user_id: Option<u64>,
    pub application_id: Option<u64>,
}

/// An event for the plugins, with what the bot itself makes of it.
pub struct Dispatch {
    pub event_name: String,
    /// The data of the event as JSON text.
    pub payload: Vec<u8>,
    /// Zero where the event names no guild.
    pub guild_id: u64,
    /// Zero where the event names no channel.
    pub channel_id: u64,
    pub ready: Option<Ready>,
    pub voice: Option<VoiceEvent>,
}

/// Why a frame is passed over.
#[derive(Clone, Copy, Debug, PartialEq, Eq, Structural)]
pub enum Skip {
    /// It has no readable header.
    NoHeader,
    /// It is no event: the other opcodes belong to the connection itself.
    NotAnEvent,
    /// It is no JSON document.
    NotJson,
}

/// What came out of the stream of a shard.
pub enum Received {
    Text(String),
    Close,
    Failed,
    Ended,
    /// The bot was told to stop.
    Stop,
}

/// What the loop of a shard does next.
pub enum Step {
    Handle(String),
    Continue,
    /// Leave the loop.
    Leave,
    /// Close the connection, then leave the loop.
    CloseAndLeave,
}

/// What is done about an event.
pub enum Effect {
    /// Start a voice driver for this user.
    StartVoiceDriver(u64),
    SetApplicationId(u64),
    ProcessVoiceEvent(VoiceEvent),
    /// Note the round-trip time to the gateway as it is then.
    MeasurePing,
    /// Hand the event to the plugins.
    DispatchEvent { event_name: String, payload: Vec<u8>, guild_id: u64, channel_id: u64 },
}

/// The contents of an `Effect`.
#[verifier::ext_equal]
pub enum EffectView {
    StartVoiceDriver(u64),
    SetApplicationId(u64),
    ProcessVoiceEvent(VoiceEvent),
    MeasurePing,
    DispatchEvent { event_name: Seq<char>, payload: Seq<u8>, guild_id: u64, channel_id: u64 },
}

impl View for Effect {
    type V = EffectView;

    open spec fn view(&self) -> EffectView {
        match *self {
            Effect::StartVoiceDriver(user_id) => EffectView::StartVoiceDriver(user_id),
            Effect::SetApplicationId(id) => EffectView::SetApplicationId(id),
            Effect::ProcessVoiceEvent(event) => EffectView::ProcessVoiceEvent(event),
            Effect::MeasurePing => EffectView::MeasurePing,
            Effect::DispatchEvent { event_name, payload, guild_id, channel_id } =>
                EffectView::DispatchEvent {
                event_name: event_name@,
                payload: payload@,
                guild_id,
                channel_id,
            },
        }
    }
}

/// The contents of a list of effects.
pub open spec fn effect_views(effects: Seq<Effect>) -> Seq<EffectView> {
    effects.map_values(|e: Effect| e@)
}

/// The contents of a `Dispatch`.
#[verifier::ext_equal]
pub struct DispatchView {
    pub event_name: Seq<char>,
    pub payload: Seq<u8>,
    pub guild_id: u64,
    pub channel_id: u64,
    pub ready: Option<Ready>,
    pub voice: Option<VoiceEvent>,
}

impl View for Dispatch {
    type V = DispatchView;

    open spec fn view(&self) -> DispatchView {
        DispatchView {
            event_name: self.event_name@,
            payload: self.payload@,
            guild_id: self.guild_id,
            channel_id: self.channel_id,
            ready: self.ready,
            voice: self.voice,
        }
    }
}

/// The header of a gateway frame, where it has a readable one.
pub uninterp spec fn frame_header(text: Seq<char>) -> Option<(u8, Option<Seq<char>>)>;

/// The voice state that a document describes, where it describes one.
pub uninterp spec fn voice_state_of(data: Json) -> Option<VoiceStateUpdate>;

/// The voice server that a document describes, where it describes one.
pub uninterp spec fn voice_server_of(data: Json) -> Option<VoiceServerUpdate>;

/// Calls `GatewayEventDeserializer::from_json` and reads its opcode and event
/// type. They depend on the text alone.
#[verifier::external_body]
fn read_header(text: &str) -> (r: Option<FrameHeader>)
    ensures
        match r {
            Some(h) => frame_header(text@) == Some(
                (
                    h.op,
                    match h.event_type {
                        Some(t) => Some(t@),
                        None => None,
                    },
                ),
            ),
            None => frame_header(text@) is None,
        },
{
    let header = GatewayEventDeserializer::from_json(text)?;
    Some(FrameHeader { op: header.op(), event_type: header.event_type().map(|t| t.to_string()) })
}

/// Calls `serde_json::from_value` for a `VoiceStateUpdate`. Whether the data is
/// accepted, and as what, depends on the document alone.
#[verifier::external_body]
fn read_voice_state(data: Value) -> (r: Option<Box<VoiceStateUpdate>>)
    ensures
        match r {
            Some(e) => voice_state_of(document(data)) == Some(*e),
            None => voice_state_of(document(data)) is None,
        },
{
    serde_json::from_value::<Box<VoiceStateUpdate>>(data).ok()
}

/// Calls `serde_json::from_value` for a `VoiceServerUpdate`. Whether the data is
/// accepted, and as what, depends on the document alone.
#[verifier::external_body]
fn read_voice_server(data: Value) -> (r: Option<VoiceServerUpdate>)
    ensures
        match r {
            Some(e) => voice_server_of(document(data)) == Some(e),
            None => voice_server_of(document(data)) is None,
        },
{
    serde_json::from_value::<VoiceServerUpdate>(data).ok()
}

/// The data of an event: the member `d` of its frame, null where there is none.
pub open spec fn event_data(frame: Json) -> Json {
    match member(frame, "d"@) {
        Some(d) => d,
        None => Json::Null,
    }
}

/// The guild that an event names, or zero.
pub open spec fn guild_of(data: Json) -> u64 {
    match identifier_of(member(data, "guild_id"@)) {
        Some(n) => n,
        None => 0,
    }
}

/// The channel that an event names, by its identifier or by the channel it
/// carries, or zero.
pub open spec fn channel_of(data: Json) -> u64 {
    match identifier_of(member(data, "channel_id"@)) {
        Some(n) => n,
        None => match identifier_of(nested_member(data, "channel"@, "id"@)) {
            Some(n) => n,
            None => 0,
        },
    }
}

/// What the data of a ready event says about the bot.
pub open spec fn ready_of(data: Json) -> Ready {
    Ready {
        user_id: match identifier_of(nested_member(data, "user"@, "id"@)) {
            Some(n) => if n == 0 {
                None
            } else {
                Some(n)
            },
            None => None,
        },
        application_id: identifier_of(nested_member(data, "application"@, "id"@)),
    }
}

/// What an event is to the voice driver.
pub open spec fn voice_of(event_name: Seq<char>, data: Json) -> Option<VoiceEvent> {
    if event_name == "VOICE_STATE_UPDATE"@ {
        match voice_state_of(data) {
            Some(e) => Some(VoiceEvent::State(Box::new(e))),
            None => None,
        }
    } else if event_name == "VOICE_SERVER_UPDATE"@ {
        match voice_server_of(data) {
            Some(e) => Some(VoiceEvent::Server(e)),
            None => None,
        }
    } else {
        None
    }
}

/// What is dispatched for an event.
pub open spec fn dispatch_of(event_name: Seq<char>, data: Json) -> DispatchView {
    DispatchView {
        event_name,
        payload: vstd::utf8::encode_utf8(compact(data)),
        guild_id: guild_of(data),
        channel_id: channel_of(data),
        ready: if event_name == "READY"@ {
            Some(ready_of(data))
        } else {
            None
        },
        voice: voice_of(event_name, data),
    }
}

/// The name of the event that a header announces.
pub open spec fn event_name_of(event_type: Option<Seq<char>>) -> Seq<char> {
    match event_type {
        Some(t) => t,
        None => "UNKNOWN"@,
    }
}

/// What a frame comes to, given what its text holds.
pub open spec fn frame_outcome(
    header: Option<(u8, Option<Seq<char>>)>,
    payload: Result<Json, Seq<char>>,
) -> Result<DispatchView, Skip> {
    match header {
        None => Err(Skip::NoHeader),
        Some((op, event_type)) => if op != 0 {
            Err(Skip::NotAnEvent)
        } else {
            match payload {
                Err(_) => Err(Skip::NotJson),
                Ok(frame) => Ok(dispatch_of(event_name_of(event_type), event_data(frame))),
            }
        },
    }
}

/// What the shards subscribe to.
pub fn gateway_intents() -> (r: Vec<Intent>)
    ensures
        r@ == seq![Intent::GuildMessages, Intent::MessageContent, Intent::GuildVoiceStates],
{
    let mut r: Vec<Intent> = Vec::new();
    r.push(Intent::GuildMessages);
    r.push(Intent::MessageContent);
    r.push(Intent::GuildVoiceStates);
    assert(r@ == seq![Intent::GuildMessages, Intent::MessageContent, Intent::GuildVoiceStates]);
    r
}

/// The shards to open: the number of each, and how many there are in all.
pub fn shard_ids(shard_count: usize) -> (r: Vec<(u32, u32)>)
    requires
        shard_count <= u32::MAX,
    ensures
        r@ == Seq::new(shard_count as nat, |i: int| (i as u32, shard_count as u32)),
{
    let mut r: Vec<(u32, u32)> = Vec::with_capacity(shard_count);
    let mut shard_id: usize = 0;
    while shard_id < shard_count
        invariant
            shard_id <= shard_count <= u32::MAX,
            r@ == Seq::new(shard_id as nat, |i: int| (i as u32, shard_count as u32)),
        decreases shard_count - shard_id,
    {
        r.push((shard_id as u32, shard_count as u32));
        shard_id += 1;
        assert(r@ == Seq::new(shard_id as nat, |i: int| (i as u32, shard_count as u32)));
    }
    r
}

/// The request for the recommended number of shards.
pub fn shard_count_request(token: &str) -> (r: Request)
    ensures
        r@ == (RequestView {
            method: "GET"@,
            url: GATEWAY_BOT_URL@,
            headers: bot_headers(token@),
            body: BodyView::Empty,
            timeout: Some(Timeout::Exchange(HTTP_TIMEOUT_SECONDS)),
        }),
{
    Request {
        method: "GET".to_owned(),
        url: GATEWAY_BOT_URL.to_owned(),
        headers: authorize(token),
        body: Body::Empty,
        timeout: Some(Timeout::Exchange(HTTP_TIMEOUT_SECONDS)),
    }
}

/// The number of shards that an answer recommends: at least one, and one where
/// it recommends none.
pub open spec fn recommended_shards(answer: Json) -> u64 {
    match member(answer, "shards"@) {
        Some(Json::Natural(n)) => if n == 0 {
            1
        } else {
            n
        },
        _ => 1,
    }
}

/// The number of shards to open, from the body of the answer to
/// `shard_count_request`.
pub fn read_shard_count(body: &Vec<u8>) -> (r: Result<usize, String>)
    ensures
        match parsed_bytes(body@) {
            Some(answer) => r == Ok::<usize, String>(recommended_shards(answer) as usize),
            None => r matches Err(e) && e@ == "error decoding response body"@,
        },
{
    match crate::json::parse_bytes(body.as_slice()) {
        Some(answer) => Ok(fetch_recommended_shard_count(&answer)),
        None => Err("error decoding response body".to_owned()),
    }
}

/// The number of shards to open, from the answer to `shard_count_request`.
pub fn fetch_recommended_shard_count(answer: &Value) -> (r: usize)
    ensures
        r == recommended_shards(document(*answer)) as usize,
{
    let shards: u64 = match crate::json::get(answer, "shards") {
        Some(v) => match crate::json::as_u64(v) {
            Some(n) => n,
            None => 1,
        },
        None => 1,
    };
    let at_least_one: u64 = if shards == 0 {
        1
    } else {
        shards
    };
    #[verifier::truncate]
    (at_least_one as usize)
}

/// What comes first: a stop goes before whatever else was received.
pub fn prefer_stop(stopping: bool, received: Received) -> (r: Received)
    ensures
        r == if stopping {
            Received::Stop
        } else {
            received
        },
{
    if stopping {
        Received::Stop
    } else {
        received
    }
}

/// What the loop of a shard does with what it received.
pub fn next_step(received: Received) -> (r: Step)
    ensures
        match received {
            Received::Text(t) => r == Step::Handle(t),
            Received::Failed => r == Step::Continue,
            Received::Close => r == Step::Leave,
            Received::Ended => r == Step::Leave,
            Received::Stop => r == Step::CloseAndLeave,
        },
{
    match received {
        Received::Text(t) => Step::Handle(t),
        Received::Failed => Step::Continue,
        Received::Close => Step::Leave,
        Received::Ended => Step::Leave,
        Received::Stop => Step::CloseAndLeave,
    }
}

fn read_ready(data: &Value) -> (r: Ready)
    ensures
        r == ready_of(document(*data)),
{
    let user_id: Option<u64> = match crate::json::identifier_in(
        crate::json::get_nested(data, "user", "id"),
    ) {
        Some(n) => if n == 0 {
            None
        } else {
            Some(n)
        },
        None => None,
    };
    let application_id: Option<u64> = crate::json::identifier_in(
        crate::json::get_nested(data, "application", "id"),
    );
    Ready { user_id, application_id }
}

fn read_voice(event_name: &str, data: &Value) -> (r: Option<VoiceEvent>)
    ensures
        r == voice_of(event_name@, document(*data)),
{
    if same(event_name, "VOICE_STATE_UPDATE") {
        match read_voice_state(crate::json::copy(data)) {
            Some(e) => Some(VoiceEvent::State(e)),
            None => None,
        }
    } else if same(event_name, "VOICE_SERVER_UPDATE") {
        match read_voice_server(crate::json::copy(data)) {
            Some(e) => Some(VoiceEvent::Server(e)),
            None => None,
        }
    } else {
        None
    }
}

/// What is dispatched for an event, given its name and its data.
pub fn plan_dispatch(event_name: String, data: &Value) -> (r: Dispatch)
    ensures
        r@ == dispatch_of(event_name@, document(*data)),
{
    let payload = crate::json::encode(data);
    let ready = if same(event_name.as_str(), "READY") {
        Some(read_ready(data))
    } else {
        None
    };
    let voice = read_voice(event_name.as_str(), data);
    let guild_id: u64 = match crate::json::identifier_in(crate::json::get(data, "guild_id")) {
        Some(n) => n,
        None => 0,
    };
    let channel_id: u64 = match crate::json::identifier_in(crate::json::get(data, "channel_id")) {
        Some(n) => n,
        None => match crate::json::identifier_in(crate::json::get_nested(data, "channel", "id")) {
            Some(n) => n,
            None => 0,
        },
    };
    Dispatch { event_name, payload, guild_id, channel_id, ready, voice }
}

/// What a frame comes to, given its header and the document it holds. The
/// document is wanted only where the header announces an event.
pub fn plan_frame(header: Option<FrameHeader>, payload: Result<Value, String>) -> (r: Result<
    Dispatch,
    Skip,
>)
    ensures
        frame_outcome(
            match header {
                Some(h) => Some(
                    (
                        h.op,
                        match h.event_type {
                            Some(t) => Some(t@),
                            None => None,
                        },
                    ),
                ),
                None => None,
            },
            match payload {
                Ok(v) => Ok(document(v)),
                Err(e) => Err(e@),
            },
        ) == (match r {
            Ok(d) => Ok::<DispatchView, Skip>(d@),
            Err(s) => Err(s),
        }),
{
    let header = match header {
        Some(h) => h,
        None => return Err(Skip::NoHeader),
    };
    if header.op != 0 {
        return Err(Skip::NotAnEvent);
    }
    let event_name = match header.event_type {
        Some(t) => t,
        None => "UNKNOWN".to_owned(),
    };
    let frame = match payload {
        Ok(v) => v,
        Err(_) => return Err(Skip::NotJson),
    };
    let data = match crate::json::get(&frame, "d") {
        Some(d) => crate::json::copy(d),
        None => crate::json::null(),
    };
    Ok(plan_dispatch(event_name, &data))
}

/// What the text of a frame comes to.
pub fn handle_frame(text: &str) -> (r: Result<Dispatch, Skip>)
    ensures
        frame_outcome(frame_header(text@), parsed(text@)) == (match r {
            Ok(d) => Ok::<DispatchView, Skip>(d@),
            Err(s) => Err(s),
        }),
{
    let header = read_header(text);
    let is_event = match &header {
        Some(h) => h.op == 0,
        None => false,
    };
    if is_event {
        plan_frame(header, crate::json::parse(text))
    } else {
        plan_frame(header, Err(String::new()))
    }
}

/// What is done about the voice driver and the application for a ready event.
pub open spec fn ready_effects(ready: Option<Ready>) -> Seq<EffectView> {
    match ready {
        Some(ready) => (match ready.user_id {
            Some(user_id) => seq![EffectView::StartVoiceDriver(user_id)],
            None => Seq::empty(),
        }) + (match ready.application_id {
            Some(id) => seq![EffectView::SetApplicationId(id)],
            None => Seq::empty(),
        }),
        None => Seq::empty(),
    }
}

/// What is done for the voice driver.
pub open spec fn voice_effects(voice: Option<VoiceEvent>) -> Seq<EffectView> {
    match voice {
        Some(event) => seq![EffectView::ProcessVoiceEvent(event)],
        None => Seq::empty(),
    }
}

/// What the plugins are handed.
pub open spec fn plugin_effect(dispatch: DispatchView) -> EffectView {
    EffectView::DispatchEvent {
        event_name: dispatch.event_name,
        payload: dispatch.payload,
        guild_id: dispatch.guild_id,
        channel_id: dispatch.channel_id,
    }
}

/// What is done about an event, in order.
pub open spec fn effects_of(dispatch: DispatchView) -> Seq<EffectView> {
    (ready_effects(dispatch.ready) + voice_effects(dispatch.voice)).push(
        EffectView::MeasurePing,
    ).push(plugin_effect(dispatch))
}

fn push_effect(effects: &mut Vec<Effect>, effect: Effect)
    ensures
        effect_views(final(effects)@) == effect_views(old(effects)@).push(effect@),
{
    effects.push(effect);
    assert(effect_views(effects@) == effect_views(old(effects)@).push(effect@));
}

/// What is done about an event, in order.
pub fn effects(dispatch: Dispatch) -> (r: Vec<Effect>)
    ensures
        effect_views(r@) == effects_of(dispatch@),
{
    let mut effects: Vec<Effect> = Vec::new();
    assert(effect_views(effects@) == Seq::<EffectView>::empty());
    match dispatch.ready {
        Some(ready) => {
            match ready.user_id {
                Some(user_id) => push_effect(&mut effects, Effect::StartVoiceDriver(user_id)),
                None => {},
            }
            match ready.application_id {
                Some(id) => push_effect(&mut effects, Effect::SetApplicationId(id)),
                None => {},
            }
        },
        None => {},
    }
    assert(effect_views(effects@) == ready_effects(dispatch.ready));
    match dispatch.voice {
        Some(event) => push_effect(&mut effects, Effect::ProcessVoiceEvent(event)),
        None => {},
    }
    assert(effect_views(effects@) == ready_effects(dispatch.ready) + voice_effects(dispatch.voice));
    push_effect(&mut effects, Effect::MeasurePing);
    push_effect(
        &mut effects,
        Effect::DispatchEvent {
            event_name: dispatch.event_name,
            payload: dispatch.payload,
            guild_id: dispatch.guild_id,
            channel_id: dispatch.channel_id,
        },
    );
    effects
}

/// The round-trip time to report, from the average that the connection
/// measured in milliseconds, if it measured one.
pub fn ping_ms(average: Option<u128>) -> (r: u64)
    ensures
        r == match average {
            Some(ms) => ms as u64,
            None => 0,
        },
{
    match average {
        Some(ms) => #[verifier::truncate]
        (ms as u64),
        None => 0,
    }
}

/// What sends commands over each shard, by the number of the shard.
pub fn shard_map<S>(senders: Vec<S>) -> (r: Vec<(u32, S)>)
    ensures
        r@ == Seq::new(senders@.len(), |i: int| (i as u32, senders@[i])),
{
    let ghost all = senders@;
    let mut rest = senders;
    let mut r: Vec<(u32, S)> = Vec::new();
    while rest.len() > 0
        invariant
            r@.len() + rest@.len() == all.len(),
            rest@ == all.skip(r@.len() as int),
            r@ == Seq::new(r@.len(), |i: int| (i as u32, all[i])),
        decreases rest@.len(),
    {
        let number: u32 = #[verifier::truncate]
        (r.len() as u32);
        let ghost done = r@.len();
        let sender = rest.remove(0);
        r.push((number, sender));
        assert(all.skip(done as int).remove(0) == all.skip(done as int + 1));
        assert(r@ == Seq::new(r@.len(), |i: int| (i as u32, all[i])));
    }
    r
}

/// Plugins see events only: whatever is dispatched came in a frame whose opcode
/// is zero and whose text is a JSON document.
pub proof fn law_only_events_are_dispatched(text: Seq<char>)
    requires
        frame_outcome(frame_header(text), parsed(text)) is Ok,
    ensures
        frame_header(text) matches Some(h) && h.0 == 0,
        parsed(text) is Ok,
{
}

/// The plugins get the data of the event and nothing else of its frame: two
/// frames that announce the same event with the same data are dispatched alike.
pub proof fn law_dispatch_depends_on_name_and_data(
    event_type: Option<Seq<char>>,
    frame1: Json,
    frame2: Json,
)
    requires
        event_data(frame1) == event_data(frame2),
    ensures
        frame_outcome(Some((0u8, event_type)), Ok(frame1)) == frame_outcome(
            Some((0u8, event_type)),
            Ok(frame2),
        ),
{
}

/// The plugins get an event once, after all else that is done about it.
pub proof fn law_plugins_come_last(dispatch: DispatchView, i: int)
    requires
        0 <= i < effects_of(dispatch).len(),
    ensures
        effects_of(dispatch)[i] is DispatchEvent <==> i == effects_of(dispatch).len() - 1,
        effects_of(dispatch).last() == plugin_effect(dispatch),
{
}

/// At least one shard is opened, whatever the answer says.
pub proof fn law_at_least_one_shard(answer: Json)
    ensures
        recommended_shards(answer) >= 1,
{
}

} // verus!
