//! Promises about the commands that go to the gateway.
use twilight_model::gateway::payload::outgoing::{
    RequestGuildMembers, UpdatePresence, UpdateVoiceState,
};
use vstd::prelude::*;

use crate::text::lowercase;
use crate::wasm::gateway::{
    guild_members_fields, presence_fields, presence_status, status_of, voice_state_fields, Delivery,
    GatewayState, PresenceStatus, ShardCommand,
};

verus! {

/// Nothing is known before the bot connects.
pub proof fn law_nothing_is_known_at_first<S, V>(r: GatewayState<S, V>)
    requires
        call_ensures(GatewayState::<S, V>::new, (), r),
    ensures
        r.gateway_ping_ms == 0,
        r.application_id == 0,
        r.shard_senders@ == Seq::<S>::empty(),
        r.shard_count == 0,
        r.songbird is None,
{
}

/// Each presence has its word, and one of them has two; any other word means
/// online.
pub proof fn law_words_of_presence(word: Seq<char>)
    ensures
        status_of("dnd"@) == PresenceStatus::DoNotDisturb,
        status_of("donotdisturb"@) == PresenceStatus::DoNotDisturb,
        status_of("idle"@) == PresenceStatus::Idle,
        status_of("invisible"@) == PresenceStatus::Invisible,
        status_of("offline"@) == PresenceStatus::Offline,
        status_of("online"@) == PresenceStatus::Online,
        word != "dnd"@ && word != "donotdisturb"@ && word != "idle"@ && word != "invisible"@ && word
            != "offline"@ ==> status_of(word) == PresenceStatus::Online,
{
    reveal_strlit("dnd");
    reveal_strlit("donotdisturb");
    reveal_strlit("idle");
    reveal_strlit("invisible");
    reveal_strlit("offline");
    reveal_strlit("online");
    assert("offline"@.len() == 7 && "online"@.len() == 6 && "idle"@.len() == 4);
    assert("dnd"@.len() == 3 && "donotdisturb"@.len() == 12 && "invisible"@.len() == 9);
}

/// A word in lower case is taken as it is.
pub proof fn law_lowered_word_is_taken(word: &str, r: PresenceStatus)
    requires
        call_ensures(presence_status, (word,), r),
    ensures
        r == status_of(word@),
{
}

/// A presence says the status of its word, in any case of its letters, and one
/// activity, of the kind and under the name that were given; a kind that is none
/// means a game. It needs a shard to go to.
pub proof fn law_presence_is_carried<S, V>(
    gateway: &GatewayState<S, V>,
    status: String,
    kind: u8,
    name: String,
    r: Result<UpdatePresence, String>,
)
    requires
        call_ensures(GatewayState::<S, V>::update_presence, (gateway, status, kind, name), r),
    ensures
        match r {
            Ok(c) => {
                let said = presence_fields(c);
                &&& gateway.shard_senders@.len() > 0
                &&& said.status == status_of(lowercase(status@))
                &&& said.activities.len() == 1
                &&& said.activities[0].1 == name@
                &&& kind <= 5 ==> said.activities[0].0 == kind
                &&& kind > 5 ==> said.activities[0].0 == 0
                &&& !said.afk
                &&& said.since is None
            },
            Err(e) => gateway.shard_senders@.len() == 0 && e@ == "no shard senders available"@,
        },
{
}

/// Guilds are numbered by the bits of their identifiers above the twenty-second,
/// and the shards take them in turn: guild number `k` is served by shard `k`,
/// counted round.
pub proof fn law_shards_take_guilds_in_turn<S, V>(
    gateway: &GatewayState<S, V>,
    guild_id: u64,
    k: int,
    low: int,
    r: Result<usize, String>,
)
    requires
        call_ensures(GatewayState::<S, V>::route, (gateway, guild_id), r),
        gateway.shard_count > 0,
        0 <= low < 4_194_304,
        guild_id == k * 4_194_304 + low,
        k % (gateway.shard_count as int) <= usize::MAX,
    ensures
        ({
            let shard = k % (gateway.shard_count as int);
            match r {
                Ok(s) => s == shard && shard < gateway.shard_senders@.len() && guild_id != 0,
                Err(e) => if shard >= gateway.shard_senders@.len() {
                    e@ == "shard sender not found"@
                } else {
                    guild_id == 0 && e@ == "invalid guild id"@
                },
            }
        }),
{
    assert(guild_id as int / 4_194_304 == k);
    assert(0 <= k % (gateway.shard_count as int)) by (nonlinear_arith)
        requires
            gateway.shard_count > 0,
    ;
}

/// Until the shards are opened no command goes to a guild.
pub proof fn law_no_shards_no_route<S, V>(
    gateway: &GatewayState<S, V>,
    guild_id: u64,
    r: Result<usize, String>,
)
    requires
        call_ensures(GatewayState::<S, V>::route, (gateway, guild_id), r),
        gateway.shard_count == 0,
    ensures
        r matches Err(e) && e@ == "shards not ready"@,
{
}

/// Whether a command for a guild goes where commands for that guild go.
pub open spec fn routed<T>(
    command: Result<ShardCommand<T>, String>,
    route: Result<usize, String>,
) -> bool {
    match route {
        Ok(shard) => command matches Ok(c) && c.shard == shard,
        Err(reason) => command matches Err(e) && e@ == reason@,
    }
}

/// A change of the voice state goes where commands for the guild go, and says what
/// it was given; channel zero is no channel.
pub proof fn law_voice_state_is_carried<S, V>(
    gateway: &GatewayState<S, V>,
    guild_id: u64,
    channel_id: Option<u64>,
    mute: bool,
    deaf: bool,
    r: Result<ShardCommand<UpdateVoiceState>, String>,
    route: Result<usize, String>,
)
    requires
        call_ensures(
            GatewayState::<S, V>::update_voice_state,
            (gateway, guild_id, channel_id, mute, deaf),
            r,
        ),
        call_ensures(GatewayState::<S, V>::route, (gateway, guild_id), route),
    ensures
        routed(r, route),
        r matches Ok(c) ==> {
            let said = voice_state_fields(c.command);
            &&& said.guild_id == guild_id
            &&& said.self_mute == mute
            &&& said.self_deaf == deaf
            &&& match channel_id {
                Some(id) => if id == 0 {
                    said.channel_id is None
                } else {
                    said.channel_id == Some(id)
                },
                None => said.channel_id is None,
            }
        },
{
}

/// To join a voice channel is to ask for that channel, with the hearing and the
/// speech that were given.
pub proof fn law_channel_is_joined<S, V>(
    gateway: &GatewayState<S, V>,
    guild_id: u64,
    channel_id: u64,
    mute: bool,
    deaf: bool,
    r: Result<ShardCommand<UpdateVoiceState>, String>,
    route: Result<usize, String>,
)
    requires
        call_ensures(
            GatewayState::<S, V>::join_voice_channel,
            (gateway, guild_id, channel_id, mute, deaf),
            r,
        ),
        call_ensures(GatewayState::<S, V>::route, (gateway, guild_id), route),
    ensures
        routed(r, route),
        r matches Ok(c) ==> {
            let said = voice_state_fields(c.command);
            &&& said.guild_id == guild_id
            &&& said.self_mute == mute
            &&& said.self_deaf == deaf
            &&& channel_id != 0 ==> said.channel_id == Some(channel_id)
            &&& channel_id == 0 ==> said.channel_id is None
        },
{
}

/// To leave the voice channel of a guild is to ask for no channel in that guild.
pub proof fn law_channel_is_left<S, V>(
    gateway: &GatewayState<S, V>,
    guild_id: u64,
    r: Result<ShardCommand<UpdateVoiceState>, String>,
    route: Result<usize, String>,
)
    requires
        call_ensures(GatewayState::<S, V>::leave_voice_channel, (gateway, guild_id), r),
        call_ensures(GatewayState::<S, V>::route, (gateway, guild_id), route),
    ensures
        routed(r, route),
        r matches Ok(c) ==> {
            let said = voice_state_fields(c.command);
            &&& said.guild_id == guild_id
            &&& said.channel_id is None
            &&& !said.self_mute
            &&& !said.self_deaf
        },
{
}

/// A request for the members of a guild asks for all members of that guild.
pub proof fn law_all_members_are_asked_for<S, V>(
    gateway: &GatewayState<S, V>,
    guild_id: u64,
    r: Result<ShardCommand<RequestGuildMembers>, String>,
    route: Result<usize, String>,
)
    requires
        call_ensures(GatewayState::<S, V>::request_guild_members, (gateway, guild_id), r),
        call_ensures(GatewayState::<S, V>::route, (gateway, guild_id), route),
    ensures
        routed(r, route),
        r matches Ok(c) ==> {
            let said = guild_members_fields(c.command);
            &&& said.guild_id == guild_id
            &&& said.query.len() == 0
            &&& said.limit == 0
        },
{
    reveal_strlit("");
}

/// A command for every shard goes to the first sender that was not handed it yet,
/// until one refuses it or all have taken it.
pub proof fn law_next_sender<S, V>(
    gateway: &GatewayState<S, V>,
    sent: usize,
    last: Result<(), String>,
    r: Delivery,
)
    requires
        call_ensures(GatewayState::<S, V>::deliver, (gateway, sent, last), r),
    ensures
        match last {
            Err(refusal) => r matches Delivery::Failed(e) && e@ == refusal@,
            Ok(_) => {
                &&& gateway.shard_senders@.len() == 0 ==> (r matches Delivery::Failed(e) && e@
                    == "no shard senders available"@)
                &&& sent < gateway.shard_senders@.len() ==> (r matches Delivery::SendTo(next)
                    && next == sent)
                &&& 0 < gateway.shard_senders@.len() <= sent ==> r is Done
            },
        },
{
}

/// An audio command acts on the guild that it was given, which has to be one, and
/// only where there is a driver with a connection to that guild.
pub proof fn law_audio_acts_on_its_guild<S, V>(
    gateway: &GatewayState<S, V>,
    guild_id: u64,
    in_call: bool,
    r: Result<u64, String>,
)
    requires
        call_ensures(GatewayState::<S, V>::audio_target, (gateway, guild_id, in_call), r),
    ensures
        guild_id == 0 ==> (r matches Err(e) && e@ == "invalid guild id"@),
        guild_id != 0 && gateway.songbird is None ==> (r matches Err(e) && e@
            == "voice driver not ready"@),
        guild_id != 0 && gateway.songbird is Some && !in_call ==> (r matches Err(e) && e@
            == "bot is not in a voice channel"@),
        guild_id != 0 && gateway.songbird is Some && in_call ==> (r matches Ok(g) && g
            == guild_id),
{
}

/// A change of volume acts where an audio command does, and needs a track.
pub proof fn law_volume_needs_a_track<S, V>(
    gateway: &GatewayState<S, V>,
    guild_id: u64,
    in_call: bool,
    has_track: bool,
    r: Result<u64, String>,
    audio: Result<u64, String>,
)
    requires
        call_ensures(
            GatewayState::<S, V>::volume_target,
            (gateway, guild_id, in_call, has_track),
            r,
        ),
        call_ensures(GatewayState::<S, V>::audio_target, (gateway, guild_id, in_call), audio),
    ensures
        match audio {
            Ok(g) => if has_track {
                r matches Ok(target) && target == g
            } else {
                r matches Err(e) && e@ == "no active track"@
            },
            Err(reason) => r matches Err(e) && e@ == reason@,
        },
{
}

} // verus!
