//! Promises about what the gateway sends.
use serde_json::Value;
use twilight_model::gateway::payload::incoming::{VoiceServerUpdate, VoiceStateUpdate};
use vstd::prelude::*;
use vstd::utf8::encode_utf8;

use crate::bot::handler::{
    dispatch_of, effect_views, effects, effects_of, event_data, event_name_of,
    fetch_recommended_shard_count, frame_header, frame_outcome, gateway_intents, handle_frame,
    next_step, ping_ms, plan_dispatch, plan_frame, prefer_stop, read_shard_count,
    recommended_shards, shard_count_request, shard_ids, shard_map, voice_server_of, voice_state_of,
    Dispatch, DispatchView, Effect, EffectView, FrameHeader, Intent, Ready, Received, Skip, Step,
    VoiceEvent,
};
use crate::http::{Request, Timeout};
use crate::json::{compact, document, identifier_of, nested_member, parsed, parsed_bytes, Json};
use crate::text::{decimal, law_decimal_round_trip, u64_of_text};

verus! {

/// An object whose member under `key` is an object with `id` under `id`.
pub open spec fn carries(data: Map<Seq<char>, Json>, key: Seq<char>, id: Json) -> bool {
    &&& data.contains_key(key)
    &&& data[key] matches Json::Object(inner) && inner.contains_key("id"@) && inner["id"@] == id
}

/// Whether a document spells out a 64-bit number as text.
pub open spec fn spells_a_number(j: Json) -> bool {
    j matches Json::Text(s) && u64_of_text(s) is Some
}

/// An event that names a guild is dispatched with all of the guild's identifier.
pub proof fn law_guild_is_kept(event_name: Seq<char>, data: Map<Seq<char>, Json>, n: u64)
    requires
        data.contains_key("guild_id"@),
        data["guild_id"@] == Json::Text(decimal(n as nat)),
    ensures
        dispatch_of(event_name, Json::Object(data)).guild_id == n,
{
    law_decimal_round_trip(n);
}

/// An event that names no guild is dispatched with zero for the guild.
pub proof fn law_no_guild_is_zero(event_name: Seq<char>, data: Json)
    requires
        data matches Json::Object(m) ==> !m.contains_key("guild_id"@) || !spells_a_number(
            m["guild_id"@],
        ),
    ensures
        dispatch_of(event_name, data).guild_id == 0,
{
}

/// An event that names a channel is dispatched with all of the channel's
/// identifier, whatever else it carries.
pub proof fn law_channel_is_kept(event_name: Seq<char>, data: Map<Seq<char>, Json>, n: u64)
    requires
        data.contains_key("channel_id"@),
        data["channel_id"@] == Json::Text(decimal(n as nat)),
    ensures
        dispatch_of(event_name, Json::Object(data)).channel_id == n,
{
    law_decimal_round_trip(n);
}

/// An event that carries a channel and names none is dispatched with all of the
/// identifier of the one that it carries.
pub proof fn law_carried_channel_is_kept(event_name: Seq<char>, data: Map<Seq<char>, Json>, n: u64)
    requires
        !data.contains_key("channel_id"@) || !spells_a_number(data["channel_id"@]),
        carries(data, "channel"@, Json::Text(decimal(n as nat))),
    ensures
        dispatch_of(event_name, Json::Object(data)).channel_id == n,
{
    law_decimal_round_trip(n);
}

/// An event that neither names nor carries a channel is dispatched with zero for
/// the channel.
pub proof fn law_no_channel_is_zero(event_name: Seq<char>, data: Json)
    requires
        data matches Json::Object(m) ==> {
            &&& !m.contains_key("channel_id"@) || !spells_a_number(m["channel_id"@])
            &&& forall|id: Json| #[trigger] carries(m, "channel"@, id) ==> !spells_a_number(id)
        },
    ensures
        dispatch_of(event_name, data).channel_id == 0,
{
    match data {
        Json::Object(m) => {
            if m.contains_key("channel"@) {
                match m["channel"@] {
                    Json::Object(inner) => {
                        if inner.contains_key("id"@) {
                            assert(carries(m, "channel"@, inner["id"@]));
                        }
                    },
                    _ => {},
                }
            }
        },
        _ => {},
    }
}

/// The plugins get the name of an event and the text of all its data.
pub proof fn law_name_and_data_are_kept(event_name: Seq<char>, data: Json)
    ensures
        dispatch_of(event_name, data).event_name == event_name,
        dispatch_of(event_name, data).payload == encode_utf8(compact(data)),
{
}

/// A frame whose opcode is zero and whose text is a document is dispatched: with
/// the name in its header, or `UNKNOWN`, and with its member `d`, or null.
pub proof fn law_events_are_dispatched(
    event_type: Option<Seq<char>>,
    frame: Json,
    name: Seq<char>,
    data: Json,
)
    requires
        name == match event_type {
            Some(t) => t,
            None => "UNKNOWN"@,
        },
        match frame {
            Json::Object(m) => data == if m.contains_key("d"@) {
                m["d"@]
            } else {
                Json::Null
            },
            _ => data == Json::Null,
        },
    ensures
        frame_outcome(Some((0u8, event_type)), Ok(frame)) == Ok::<DispatchView, Skip>(
            dispatch_of(name, data),
        ),
{
}

/// A frame without a header, one that is no event and one that is no document are
/// told apart, in this order.
pub proof fn law_other_frames_are_passed_over(
    op: u8,
    event_type: Option<Seq<char>>,
    payload: Result<Json, Seq<char>>,
)
    ensures
        frame_outcome(None, payload) == Err::<DispatchView, Skip>(Skip::NoHeader),
        op != 0 ==> frame_outcome(Some((op, event_type)), payload) == Err::<DispatchView, Skip>(
            Skip::NotAnEvent,
        ),
        payload is Err ==> frame_outcome(Some((0u8, event_type)), payload) == Err::<
            DispatchView,
            Skip,
        >(Skip::NotJson),
{
}

/// A ready event that names a user other than zero gives all of its identifier.
pub proof fn law_ready_user_is_kept(data: Map<Seq<char>, Json>, n: u64)
    requires
        carries(data, "user"@, Json::Text(decimal(n as nat))),
    ensures
        match dispatch_of("READY"@, Json::Object(data)).ready {
            Some(ready) => ready.user_id == if n == 0 {
                None::<u64>
            } else {
                Some(n)
            },
            None => false,
        },
{
    law_decimal_round_trip(n);
}

/// A ready event that names an application gives all of its identifier.
pub proof fn law_ready_application_is_kept(data: Map<Seq<char>, Json>, n: u64)
    requires
        carries(data, "application"@, Json::Text(decimal(n as nat))),
    ensures
        match dispatch_of("READY"@, Json::Object(data)).ready {
            Some(ready) => ready.application_id == Some(n),
            None => false,
        },
{
    law_decimal_round_trip(n);
}

proof fn lemma_carried(data: Map<Seq<char>, Json>, key: Seq<char>)
    ensures
        (forall|id: Json| #[trigger] carries(data, key, id) ==> !spells_a_number(id))
            ==> identifier_of(nested_member(Json::Object(data), key, "id"@)) is None,
{
    if data.contains_key(key) {
        match data[key] {
            Json::Object(inner) => {
                if inner.contains_key("id"@) {
                    assert(carries(data, key, inner["id"@]));
                }
            },
            _ => {},
        }
    }
}

/// A ready event that does not name a user or an application gives none.
pub proof fn law_ready_says_no_more(data: Map<Seq<char>, Json>)
    ensures
        match dispatch_of("READY"@, Json::Object(data)).ready {
            Some(ready) => {
                &&& (forall|id: Json| #[trigger]
                    carries(data, "user"@, id) ==> !spells_a_number(id)) ==> ready.user_id is None
                &&& (forall|id: Json| #[trigger]
                    carries(data, "application"@, id) ==> !spells_a_number(id))
                    ==> ready.application_id is None
            },
            None => false,
        },
{
    lemma_carried(data, "user"@);
    lemma_carried(data, "application"@);
}

/// An event of another name says nothing about the bot, nor does a ready event
/// whose data is no object.
pub proof fn law_only_ready_speaks_of_the_bot(event_name: Seq<char>, data: Json)
    ensures
        event_name != "READY"@ ==> dispatch_of(event_name, data).ready is None,
        event_name == "READY"@ && !(data is Object) ==> dispatch_of(event_name, data).ready == Some(
            Ready { user_id: None, application_id: None },
        ),
{
}

/// A voice state goes to the voice driver as it was sent.
pub proof fn law_voice_state_is_kept(data: Json, update: VoiceStateUpdate)
    requires
        voice_state_of(data) == Some(update),
    ensures
        match dispatch_of("VOICE_STATE_UPDATE"@, data).voice {
            Some(VoiceEvent::State(u)) => *u == update,
            _ => false,
        },
{
}

/// A voice server goes to the voice driver as it was sent.
pub proof fn law_voice_server_is_kept(data: Json, update: VoiceServerUpdate)
    requires
        voice_server_of(data) == Some(update),
    ensures
        dispatch_of("VOICE_SERVER_UPDATE"@, data).voice == Some(VoiceEvent::Server(update)),
{
    reveal_strlit("VOICE_STATE_UPDATE");
    reveal_strlit("VOICE_SERVER_UPDATE");
    assert("VOICE_STATE_UPDATE"@.len() != "VOICE_SERVER_UPDATE"@.len());
}

/// No other event goes to the voice driver.
pub proof fn law_no_other_voice_event(event_name: Seq<char>, data: Json)
    requires
        event_name == "VOICE_STATE_UPDATE"@ ==> voice_state_of(data) is None,
        event_name == "VOICE_SERVER_UPDATE"@ ==> voice_server_of(data) is None,
    ensures
        dispatch_of(event_name, data).voice is None,
{
    reveal_strlit("VOICE_STATE_UPDATE");
    reveal_strlit("VOICE_SERVER_UPDATE");
    assert("VOICE_STATE_UPDATE"@.len() != "VOICE_SERVER_UPDATE"@.len());
}

/// How many effects there are: the round-trip time is noted and the plugins are
/// handed the event, and there is one more for each of the user, the application
/// and the voice event that there is.
pub open spec fn effect_count(d: DispatchView) -> int {
    2 + (if d.ready matches Some(r) && r.user_id is Some {
        1int
    } else {
        0
    }) + (if d.ready matches Some(r) && r.application_id is Some {
        1int
    } else {
        0
    }) + (if d.voice is Some {
        1int
    } else {
        0
    })
}

/// A voice event, of whichever kind, is processed once, right before the
/// round-trip time is noted and the plugins are handed the event.
pub proof fn law_voice_event_is_processed_once(d: DispatchView, e: VoiceEvent, i: int)
    requires
        d.voice == Some(e),
        0 <= i < effects_of(d).len(),
    ensures
        effects_of(d).len() == effect_count(d),
        effects_of(d)[i] is ProcessVoiceEvent <==> i == effect_count(d) - 3,
        effects_of(d)[effect_count(d) - 3] == EffectView::ProcessVoiceEvent(e),
{
}

/// Without a voice event nothing is processed as one.
pub proof fn law_no_voice_event_no_processing(d: DispatchView, i: int)
    requires
        d.voice is None,
        0 <= i < effects_of(d).len(),
    ensures
        effects_of(d).len() == effect_count(d),
        !(effects_of(d)[i] is ProcessVoiceEvent),
{
}

/// The voice driver is started once, before all else, for the user that a ready
/// event names, and for no one else.
pub proof fn law_voice_driver_is_started_once(d: DispatchView, i: int)
    requires
        0 <= i < effects_of(d).len(),
    ensures
        match d.ready {
            Some(Ready { user_id: Some(user), .. }) => {
                &&& effects_of(d)[0] == EffectView::StartVoiceDriver(user)
                &&& effects_of(d)[i] is StartVoiceDriver <==> i == 0
            },
            _ => !(effects_of(d)[i] is StartVoiceDriver),
        },
{
}

/// The application is noted once, before the voice event, where a ready event
/// names it.
pub proof fn law_application_is_noted_once(d: DispatchView, i: int)
    requires
        0 <= i < effects_of(d).len(),
    ensures
        match d.ready {
            Some(Ready { user_id, application_id: Some(id) }) => {
                let at = if user_id is Some {
                    1int
                } else {
                    0
                };
                &&& effects_of(d)[at] == EffectView::SetApplicationId(id)
                &&& effects_of(d)[i] is SetApplicationId <==> i == at
            },
            _ => !(effects_of(d)[i] is SetApplicationId),
        },
{
}

/// The round-trip time is noted once, right before the plugins are handed the
/// event; they are handed its name, its data, its guild and its channel, last and
/// once.
pub proof fn law_plugins_are_handed_the_event(d: DispatchView, i: int)
    requires
        0 <= i < effects_of(d).len(),
    ensures
        effects_of(d).len() == effect_count(d),
        effects_of(d)[i] is MeasurePing <==> i == effect_count(d) - 2,
        match effects_of(d)[i] {
            EffectView::DispatchEvent { event_name, payload, guild_id, channel_id } => {
                &&& i == effect_count(d) - 1
                &&& event_name == d.event_name
                &&& payload == d.payload
                &&& guild_id == d.guild_id
                &&& channel_id == d.channel_id
            },
            _ => i != effect_count(d) - 1,
        },
{
}

/// The number of shards is the one that the answer gives, unless it gives none or
/// zero.
pub proof fn law_recommended_shards_are_kept(answer: Map<Seq<char>, Json>, n: u64)
    ensures
        answer.contains_key("shards"@) && answer["shards"@] == Json::Natural(n)
            ==> recommended_shards(Json::Object(answer)) == if n == 0 {
            1
        } else {
            n
        },
        !answer.contains_key("shards"@) ==> recommended_shards(Json::Object(answer)) == 1,
        answer.contains_key("shards"@) && !(answer["shards"@] is Natural) ==> recommended_shards(
            Json::Object(answer),
        ) == 1,
{
}

/// An answer that is no object recommends one shard.
pub proof fn law_other_answers_recommend_one(answer: Json)
    requires
        !(answer is Object),
    ensures
        recommended_shards(answer) == 1,
{
}

/// The contents of a dispatch are its fields.
pub proof fn law_dispatch_contents(d: Dispatch)
    ensures
        d@.event_name == d.event_name@,
        d@.payload == d.payload@,
        d@.guild_id == d.guild_id,
        d@.channel_id == d.channel_id,
        d@.ready == d.ready,
        d@.voice == d.voice,
{
}

/// The contents of a list of effects are those of its effects, in order.
pub proof fn law_effect_contents(effects: Seq<Effect>, i: int)
    requires
        0 <= i < effects.len(),
    ensures
        effect_views(effects).len() == effects.len(),
        match (effects[i], effect_views(effects)[i]) {
            (Effect::StartVoiceDriver(a), EffectView::StartVoiceDriver(b)) => a == b,
            (Effect::SetApplicationId(a), EffectView::SetApplicationId(b)) => a == b,
            (Effect::ProcessVoiceEvent(a), EffectView::ProcessVoiceEvent(b)) => a == b,
            (Effect::MeasurePing, EffectView::MeasurePing) => true,
            (
                Effect::DispatchEvent { event_name, payload, guild_id, channel_id },
                EffectView::DispatchEvent {
                    event_name: name,
                    payload: bytes,
                    guild_id: guild,
                    channel_id: channel,
                },
            ) => name == event_name@ && bytes == payload@ && guild == guild_id && channel
                == channel_id,
            _ => false,
        },
{
}

/// The name of an event is the one in its header.
pub proof fn law_event_name(t: Seq<char>)
    ensures
        event_name_of(Some(t)) == t,
        event_name_of(None) == "UNKNOWN"@,
{
}

/// The data of an event is the member `d` of its frame.
pub proof fn law_event_data(frame: Map<Seq<char>, Json>)
    ensures
        frame.contains_key("d"@) ==> event_data(Json::Object(frame)) == frame["d"@],
        !frame.contains_key("d"@) ==> event_data(Json::Object(frame)) == Json::Null,
{
}

/// What is planned for an event has all of the guild's and the channel's
/// identifiers, the name of the event and the text of its data.
pub proof fn law_planned_dispatch(
    event_name: String,
    data: &Value,
    m: Map<Seq<char>, Json>,
    guild: u64,
    channel: u64,
    r: Dispatch,
)
    requires
        call_ensures(plan_dispatch, (event_name, data), r),
        document(*data) == Json::Object(m),
    ensures
        r.event_name@ == event_name@,
        r.payload@ == encode_utf8(compact(document(*data))),
        m.contains_key("guild_id"@) && m["guild_id"@] == Json::Text(decimal(guild as nat))
            ==> r.guild_id == guild,
        !m.contains_key("guild_id"@) || !spells_a_number(m["guild_id"@]) ==> r.guild_id == 0,
        m.contains_key("channel_id"@) && m["channel_id"@] == Json::Text(decimal(channel as nat))
            ==> r.channel_id == channel,
        (!m.contains_key("channel_id"@) || !spells_a_number(m["channel_id"@])) && carries(
            m,
            "channel"@,
            Json::Text(decimal(channel as nat)),
        ) ==> r.channel_id == channel,
        r.ready is Some <==> event_name@ == "READY"@,
        event_name@ == "VOICE_STATE_UPDATE"@ ==> match r.voice {
            Some(VoiceEvent::State(e)) => voice_state_of(document(*data)) == Some(*e),
            Some(_) => false,
            None => voice_state_of(document(*data)) is None,
        },
        event_name@ == "VOICE_SERVER_UPDATE"@ ==> match r.voice {
            Some(VoiceEvent::Server(e)) => voice_server_of(document(*data)) == Some(e),
            Some(_) => false,
            None => voice_server_of(document(*data)) is None,
        },
        event_name@ != "VOICE_STATE_UPDATE"@ && event_name@ != "VOICE_SERVER_UPDATE"@
            ==> r.voice is None,
{
    law_decimal_round_trip(guild);
    law_decimal_round_trip(channel);
    assert(r@.guild_id == r.guild_id && r@.channel_id == r.channel_id);
    assert(r@.voice == r.voice && r@.ready == r.ready);
    reveal_strlit("VOICE_STATE_UPDATE");
    reveal_strlit("VOICE_SERVER_UPDATE");
    assert("VOICE_STATE_UPDATE"@.len() != "VOICE_SERVER_UPDATE"@.len());
}

/// What is planned for a ready event has all of the identifiers of the bot's user
/// and of its application.
pub proof fn law_planned_ready(
    event_name: String,
    data: &Value,
    m: Map<Seq<char>, Json>,
    user: u64,
    application: u64,
    r: Dispatch,
)
    requires
        call_ensures(plan_dispatch, (event_name, data), r),
        event_name@ == "READY"@,
        document(*data) == Json::Object(m),
        carries(m, "user"@, Json::Text(decimal(user as nat))),
        carries(m, "application"@, Json::Text(decimal(application as nat))),
    ensures
        r.ready matches Some(ready) && {
            &&& user != 0 ==> ready.user_id == Some(user)
            &&& user == 0 ==> ready.user_id is None
            &&& ready.application_id == Some(application)
        },
{
    law_ready_user_is_kept(m, user);
    law_ready_application_is_kept(m, application);
    assert(r@.ready == r.ready);
}

/// A frame of an event is planned like its event; any other frame is passed over.
pub proof fn law_planned_frame(
    op: u8,
    event_type: String,
    frame: Value,
    m: Map<Seq<char>, Json>,
    data: &Value,
    r: Result<Dispatch, Skip>,
    planned: Dispatch,
)
    requires
        call_ensures(
            plan_frame,
            (Some(FrameHeader { op, event_type: Some(event_type) }), Ok(frame)),
            r,
        ),
        document(frame) == Json::Object(m),
        m.contains_key("d"@),
        m["d"@] == document(*data),
        call_ensures(plan_dispatch, (event_type, data), planned),
    ensures
        op != 0 ==> r == Err::<Dispatch, Skip>(Skip::NotAnEvent),
        op == 0 ==> (r matches Ok(d) && d@ == planned@),
{
}

/// A frame that announces no event or holds no document is passed over, each for
/// its own reason; one that has no name is called unknown, and one that has no
/// data has the null document.
pub proof fn law_frames_that_lack_something(
    header: FrameHeader,
    payload: Result<Value, String>,
    none: Result<Dispatch, Skip>,
    r: Result<Dispatch, Skip>,
)
    requires
        call_ensures(plan_frame, (None, payload), none),
        call_ensures(plan_frame, (Some(header), payload), r),
    ensures
        none == Err::<Dispatch, Skip>(Skip::NoHeader),
        header.op != 0 ==> r == Err::<Dispatch, Skip>(Skip::NotAnEvent),
        header.op == 0 && payload is Err ==> r == Err::<Dispatch, Skip>(Skip::NotJson),
        header.op == 0 && payload is Ok ==> (r matches Ok(d) && {
            &&& match header.event_type {
                Some(t) => d.event_name@ == t@,
                None => d.event_name@ == "UNKNOWN"@,
            }
            &&& match document(payload->Ok_0) {
                Json::Object(m) => m.contains_key("d"@) || d.payload@ == encode_utf8(
                    compact(Json::Null),
                ),
                _ => d.payload@ == encode_utf8(compact(Json::Null)),
            }
        }),
{
}

/// The text of a frame comes to what its header and its document come to.
pub proof fn law_text_of_a_frame(
    text: &str,
    header: FrameHeader,
    frame: Value,
    r: Result<Dispatch, Skip>,
    planned: Result<Dispatch, Skip>,
)
    requires
        call_ensures(handle_frame, (text,), r),
        call_ensures(plan_frame, (Some(header), Ok(frame)), planned),
        frame_header(text@) == Some(
            (
                header.op,
                match header.event_type {
                    Some(t) => Some(t@),
                    None => None,
                },
            ),
        ),
        parsed(text@) == Ok::<Json, Seq<char>>(document(frame)),
    ensures
        match planned {
            Ok(d) => r matches Ok(e) && e@ == d@,
            Err(s) => r matches Err(t) && t == s,
        },
{
}

/// A text without a header is passed over, one that is no event too, whatever else
/// it holds, and then one that is no document.
pub proof fn law_texts_that_lack_something(text: &str, r: Result<Dispatch, Skip>)
    requires
        call_ensures(handle_frame, (text,), r),
    ensures
        match frame_header(text@) {
            None => r == Err::<Dispatch, Skip>(Skip::NoHeader),
            Some(header) => if header.0 != 0 {
                r == Err::<Dispatch, Skip>(Skip::NotAnEvent)
            } else {
                parsed(text@) is Err <==> r == Err::<Dispatch, Skip>(Skip::NotJson)
            },
        },
{
}

/// About an event these things are done, in this order, each once: a voice driver
/// is started and the application noted where a ready event names them, a voice
/// event is processed where there is one, the round-trip time is measured, and the
/// plugins are handed the event.
pub proof fn law_what_is_done(dispatch: Dispatch, r: Vec<Effect>, i: int)
    requires
        call_ensures(effects, (dispatch,), r),
    ensures
        ({
            let starts: int = match dispatch.ready {
                Some(ready) => if ready.user_id is Some {
                    1
                } else {
                    0
                },
                None => 0,
            };
            let notes: int = match dispatch.ready {
                Some(ready) => if ready.application_id is Some {
                    1
                } else {
                    0
                },
                None => 0,
            };
            let voices: int = if dispatch.voice is Some {
                1
            } else {
                0
            };
            &&& r@.len() == starts + notes + voices + 2
            &&& 0 <= i < starts ==> r@[i] == Effect::StartVoiceDriver(
                dispatch.ready->0.user_id->0,
            )
            &&& starts <= i < starts + notes ==> r@[i] == Effect::SetApplicationId(
                dispatch.ready->0.application_id->0,
            )
            &&& starts + notes <= i < starts + notes + voices ==> r@[i]
                == Effect::ProcessVoiceEvent(dispatch.voice->0)
            &&& r@[r@.len() - 2] == Effect::MeasurePing
            &&& r@[r@.len() - 1] matches Effect::DispatchEvent {
                event_name,
                payload,
                guild_id,
                channel_id,
            } && event_name@ == dispatch.event_name@ && payload@ == dispatch.payload@ && guild_id
                == dispatch.guild_id && channel_id == dispatch.channel_id
        }),
{
    let views = effect_views(r@);
    assert(views.len() == r@.len());
    assert(views == effects_of(dispatch@));
    if 0 <= i < r@.len() {
        assert(views[i] == r@[i]@);
    }
    assert(views[r@.len() - 2] == r@[r@.len() - 2]@);
    assert(views[r@.len() - 1] == r@[r@.len() - 1]@);
}

/// The shards subscribe to messages, what they say and who speaks.
pub proof fn law_subscriptions(r: Vec<Intent>)
    requires
        call_ensures(gateway_intents, (), r),
    ensures
        r@.len() == 3,
        r@[0] == Intent::GuildMessages,
        r@[1] == Intent::MessageContent,
        r@[2] == Intent::GuildVoiceStates,
{
}

/// The shards are numbered from zero, and each is told how many there are.
pub proof fn law_shard_numbers(shard_count: usize, r: Vec<(u32, u32)>, i: int)
    requires
        call_ensures(shard_ids, (shard_count,), r),
        shard_count <= u32::MAX,
    ensures
        r@.len() == shard_count,
        0 <= i < shard_count ==> r@[i].0 == i && r@[i].1 == shard_count,
{
}

/// What sends commands over the shards is kept in order, each under its number.
pub proof fn law_senders_keep_their_numbers<S>(senders: Vec<S>, r: Vec<(u32, S)>, i: int)
    requires
        call_ensures(shard_map::<S>, (senders,), r),
    ensures
        r@.len() == senders@.len(),
        0 <= i < senders@.len() ==> r@[i].1 == senders@[i],
        0 <= i < senders@.len() && i <= u32::MAX ==> r@[i].0 == i,
{
}

/// The number of shards is asked for in the name of the bot, and the whole
/// exchange may take fifteen seconds.
pub proof fn law_shard_count_is_asked_for(token: &str, r: Request)
    requires
        call_ensures(shard_count_request, (token,), r),
    ensures
        r.method@ == "GET"@,
        r.url@ == "https://discord.com/api/v10/gateway/bot"@,
        r.headers@.len() == 1,
        r.headers@[0].0@ == "Authorization"@,
        r.headers@[0].1@ == "Bot "@ + token@,
        r.body is Empty,
        r.timeout == Some(Timeout::Exchange(15)),
{
    assert(r@.headers.len() == r.headers@.len());
    assert(r@.headers[0] == (r.headers@[0].0@, r.headers@[0].1@));
    assert(r@.body == r.body@);
}

/// As many shards are opened as the answer recommends, and one where it recommends
/// none; an answer that is no document recommends nothing.
pub proof fn law_recommended_shards_are_opened(
    body: &Vec<u8>,
    answer: &Value,
    n: u64,
    m: Map<Seq<char>, Json>,
    read: Result<usize, String>,
    fetched: usize,
)
    requires
        call_ensures(read_shard_count, (body,), read),
        call_ensures(fetch_recommended_shard_count, (answer,), fetched),
        document(*answer) == Json::Object(m),
        n <= usize::MAX,
    ensures
        m.contains_key("shards"@) && m["shards"@] == Json::Natural(n) ==> fetched == if n == 0 {
            1
        } else {
            n
        },
        !m.contains_key("shards"@) || !(m["shards"@] is Natural) ==> fetched == 1,
        parsed_bytes(body@) == Some(document(*answer)) ==> read == Ok::<usize, String>(fetched),
        parsed_bytes(body@) is None ==> (read matches Err(e) && e@
            == "error decoding response body"@),
{
}

/// A stop goes before whatever else came, and what came is kept where there is no
/// stop.
pub proof fn law_stop_goes_first(received: Received, stopped: Received, kept: Received)
    requires
        call_ensures(prefer_stop, (true, received), stopped),
        call_ensures(prefer_stop, (false, received), kept),
    ensures
        stopped is Stop,
        kept == received,
{
}

/// The loop of a shard handles each text as it came, goes on after a fault, and
/// ends with the connection; only a stop closes the connection.
pub proof fn law_loop_of_a_shard(received: Received, r: Step)
    requires
        call_ensures(next_step, (received,), r),
    ensures
        received matches Received::Text(text) ==> (r matches Step::Handle(t) && t == text),
        received is Failed <==> r is Continue,
        received is Close || received is Ended <==> r is Leave,
        received is Stop <==> r is CloseAndLeave,
{
}

/// The round-trip time is reported by its low 64 bits, which is in full while it
/// fits, and as zero where none was measured.
pub proof fn law_ping_is_kept(average: Option<u128>, r: u64)
    requires
        call_ensures(ping_ms, (average,), r),
    ensures
        match average {
            Some(ms) => r == ms as int % 18_446_744_073_709_551_616,
            None => r == 0,
        },
{
    match average {
        Some(ms) => {
            assert(ms as u64 == ms % 18_446_744_073_709_551_616u128) by (bit_vector);
        },
        None => {},
    }
}

} // verus!
