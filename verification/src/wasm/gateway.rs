//! What the plugins share of the gateway, and the commands that go to it.
use twilight_model::gateway::payload::outgoing::{
    RequestGuildMembers, UpdatePresence, UpdateVoiceState,
};
use twilight_model::gateway::presence::{ActivityType, MinimalActivity, Status};
use twilight_model::id::Id;
use vstd::prelude::*;

use crate::text::{lowercase, same, to_lowercase};

verus! {

#[verifier::external_type_specification]
#[verifier::external_body]
pub struct ExUpdatePresence(UpdatePresence);

#[verifier::external_type_specification]
#[verifier::external_body]
pub struct ExUpdateVoiceState(UpdateVoiceState);

#[verifier::external_type_specification]
#[verifier::external_body]
pub struct ExRequestGuildMembers(RequestGuildMembers);

/// What is known of the connection. `S` sends commands over a shard; `V` drives
/// voice connections.
pub struct GatewayState<S, V> {
    pub gateway_ping_ms: u64,
    /// Zero until it is known.
    pub application_id: u64,
    pub shard_senders: Vec<S>,
    /// Zero until the shards are opened.
    pub shard_count: u64,
    pub songbird: Option<V>,
}

/// How the bot shows itself.
#[derive(Clone, Copy, Debug, PartialEq, Eq, Structural)]
pub enum PresenceStatus {
    DoNotDisturb,
    Idle,
    Invisible,
    Offline,
    Online,
}

/// What a presence command says.
#[verifier::ext_equal]
pub struct PresenceFields {
    pub status: PresenceStatus,
    /// Discord's code for the kind of each activity, and its name. An activity
    /// says nothing else.
    pub activities: Seq<(u8, Seq<char>)>,
    pub afk: bool,
    pub since: Option<u64>,
}

/// What a voice state command says.
pub struct VoiceStateFields {
    pub guild_id: u64,
    pub channel_id: Option<u64>,
    pub self_deaf: bool,
    pub self_mute: bool,
}

/// What a request for guild members says.
#[verifier::ext_equal]
pub struct GuildMembersFields {
    pub guild_id: u64,
    /// What the names of the members begin with.
    pub query: Seq<char>,
    /// How many to list at most; zero for all.
    pub limit: u64,
}

/// A command for one shard.
pub struct ShardCommand<T> {
    /// Which of the senders it goes to.
    pub shard: usize,
    pub command: T,
}

/// What comes next when a command goes to every shard.
#[derive(Debug)]
pub enum Delivery {
    /// Hand it to this sender.
    SendTo(usize),
    /// All senders took it.
    Done,
    /// It goes no further, for the reason given.
    Failed(String),
}

/// The contents of a `Delivery`.
#[verifier::ext_equal]
pub enum DeliveryView {
    SendTo(int),
    Done,
    Failed(Seq<char>),
}

impl View for Delivery {
    type V = DeliveryView;

    open spec fn view(&self) -> DeliveryView {
        match self {
            Delivery::SendTo(i) => DeliveryView::SendTo(*i as int),
            Delivery::Done => DeliveryView::Done,
            Delivery::Failed(e) => DeliveryView::Failed(e@),
        }
    }
}

/// What comes next when a command goes to every shard: `sent` senders were handed
/// it so far, and `last` is what the last of them made of it.
pub open spec fn delivery(senders: nat, sent: nat, last: Result<(), Seq<char>>) -> DeliveryView {
    match last {
        Err(e) => DeliveryView::Failed(e),
        Ok(_) => if senders == 0 {
            DeliveryView::Failed("no shard senders available"@)
        } else if sent < senders {
            DeliveryView::SendTo(sent as int)
        } else {
            DeliveryView::Done
        },
    }
}

/// The senders that are handed a command, in order, from `sent` on, where `says`
/// tells what each makes of it; and the result.
pub open spec fn delivered(
    senders: nat,
    sent: nat,
    last: Result<(), Seq<char>>,
    says: spec_fn(int) -> Result<(), Seq<char>>,
) -> (Seq<int>, Result<(), Seq<char>>)
    decreases senders - sent,
{
    match delivery(senders, sent, last) {
        DeliveryView::Failed(e) => (Seq::empty(), Err(e)),
        DeliveryView::Done => (Seq::empty(), Ok(())),
        DeliveryView::SendTo(i) => {
            let rest = delivered(senders, sent + 1, says(i), says);
            (seq![i] + rest.0, rest.1)
        },
    }
}

/// What a presence command says.
pub uninterp spec fn presence_fields(command: UpdatePresence) -> PresenceFields;

/// What a voice state command says.
pub uninterp spec fn voice_state_fields(command: UpdateVoiceState) -> VoiceStateFields;

/// What a request for guild members says.
pub uninterp spec fn guild_members_fields(command: RequestGuildMembers) -> GuildMembersFields;

/// Calls `UpdatePresence::new` with one activity of the given kind and name. It
/// refuses only an empty list of activities, so it makes a command, which says
/// what it was given.
#[verifier::external_body]
fn presence(status: PresenceStatus, kind: u8, name: String, afk: bool, since: Option<u64>) -> (r:
    Option<UpdatePresence>)
    requires
        kind <= 5,
    ensures
        match r {
            Some(c) => presence_fields(c) == (PresenceFields {
                status,
                activities: seq![(kind, name@)],
                afk,
                since,
            }),
            None => false,
        },
{
    let status = match status {
        PresenceStatus::DoNotDisturb => Status::DoNotDisturb,
        PresenceStatus::Idle => Status::Idle,
        PresenceStatus::Invisible => Status::Invisible,
        PresenceStatus::Offline => Status::Offline,
        PresenceStatus::Online => Status::Online,
    };
    let activity = MinimalActivity { kind: ActivityType::from(kind), name, url: None };
    UpdatePresence::new(vec![activity.into()], afk, since, status).ok()
}

/// Calls `UpdateVoiceState::new`: a command that says what it was given.
#[verifier::external_body]
fn voice_state(guild_id: u64, channel_id: Option<u64>, self_deaf: bool, self_mute: bool) -> (r:
    UpdateVoiceState)
    requires
        guild_id != 0,
        channel_id != Some(0u64),
    ensures
        voice_state_fields(r) == (VoiceStateFields { guild_id, channel_id, self_deaf, self_mute }),
{
    UpdateVoiceState::new(Id::new(guild_id), channel_id.map(Id::new), self_deaf, self_mute)
}

/// Calls `RequestGuildMembers::builder` and `query`: a request that says what it
/// was given, with a limit of zero where none is set.
#[verifier::external_body]
fn guild_members(guild_id: u64, query: &str, limit: Option<u64>) -> (r: RequestGuildMembers)
    requires
        guild_id != 0,
    ensures
        guild_members_fields(r) == (GuildMembersFields {
            guild_id,
            query: query@,
            limit: match limit {
                Some(n) => n,
                None => 0,
            },
        }),
{
    RequestGuildMembers::builder(Id::new(guild_id)).query(query, limit)
}

/// The presence that a word asks for, in any case of its letters; a word that
/// asks for none means online.
pub open spec fn status_of(lowered: Seq<char>) -> PresenceStatus {
    if lowered == "dnd"@ || lowered == "donotdisturb"@ {
        PresenceStatus::DoNotDisturb
    } else if lowered == "idle"@ {
        PresenceStatus::Idle
    } else if lowered == "invisible"@ {
        PresenceStatus::Invisible
    } else if lowered == "offline"@ {
        PresenceStatus::Offline
    } else {
        PresenceStatus::Online
    }
}

/// The kind of activity that a number asks for: one that asks for none means
/// playing a game, which is zero.
pub open spec fn activity_of(activity_type: u8) -> u8 {
    if 1 <= activity_type <= 5 {
        activity_type
    } else {
        0
    }
}

/// The shard that serves a guild: the bits of its identifier above the
/// twenty-second count the guilds, and the shards take them in turn.
pub open spec fn shard_of(guild_id: u64, shard_count: u64) -> int {
    (guild_id as int / 4_194_304) % (shard_count as int)
}

/// Which sender a command for a guild goes to, or why it goes to none.
pub open spec fn route_of(shard_count: u64, senders: nat, guild_id: u64) -> Result<
    usize,
    Seq<char>,
> {
    if shard_count == 0 {
        Err("shards not ready"@)
    } else if shard_of(guild_id, shard_count) as usize >= senders {
        Err("shard sender not found"@)
    } else if guild_id == 0 {
        Err("invalid guild id"@)
    } else {
        Ok(shard_of(guild_id, shard_count) as usize)
    }
}

/// The presence that a word in lower case asks for.
pub fn presence_status(lowered: &str) -> (r: PresenceStatus)
    ensures
        r == status_of(lowered@),
{
    if same(lowered, "dnd") || same(lowered, "donotdisturb") {
        PresenceStatus::DoNotDisturb
    } else if same(lowered, "idle") {
        PresenceStatus::Idle
    } else if same(lowered, "invisible") {
        PresenceStatus::Invisible
    } else if same(lowered, "offline") {
        PresenceStatus::Offline
    } else {
        PresenceStatus::Online
    }
}

impl<S, V> GatewayState<S, V> {
    /// What is known before the bot connects: nothing.
    pub fn new() -> (r: GatewayState<S, V>)
        ensures
            r.gateway_ping_ms == 0,
            r.application_id == 0,
            r.shard_senders@.len() == 0,
            r.shard_count == 0,
            r.songbird is None,
    {
        GatewayState {
            gateway_ping_ms: 0,
            application_id: 0,
            shard_senders: Vec::new(),
            shard_count: 0,
            songbird: None,
        }
    }

    /// Which sender a command for a guild goes to.
    pub fn route(&self, guild_id: u64) -> (r: Result<usize, String>)
        ensures
            route_of(self.shard_count, self.shard_senders@.len(), guild_id) == (match r {
                Ok(shard) => Ok::<usize, Seq<char>>(shard),
                Err(e) => Err(e@),
            }),
            r matches Ok(shard) ==> shard < self.shard_senders@.len() && guild_id != 0,
    {
        if self.shard_count == 0 {
            return Err("shards not ready".to_owned());
        }
        assert(guild_id >> 22 == guild_id / 4_194_304) by (bit_vector);
        let shard: usize = #[verifier::truncate]
        (((guild_id >> 22) % self.shard_count) as usize);
        assert(shard == shard_of(guild_id, self.shard_count) as usize);
        if shard >= self.shard_senders.len() {
            return Err("shard sender not found".to_owned());
        }
        if guild_id == 0 {
            return Err("invalid guild id".to_owned());
        }
        Ok(shard)
    }

    /// The command that shows the bot in a new way. It goes to every shard.
    pub fn update_presence(&self, status: String, activity_type: u8, activity_name: String) -> (r:
        Result<UpdatePresence, String>)
        ensures
            match r {
                Ok(c) => self.shard_senders@.len() > 0 && presence_fields(c) == (PresenceFields {
                    status: status_of(lowercase(status@)),
                    activities: seq![(activity_of(activity_type), activity_name@)],
                    afk: false,
                    since: None,
                }),
                Err(e) => self.shard_senders@.len() == 0 && e@ == "no shard senders available"@,
            },
    {
        let kind: u8 = if 1 <= activity_type && activity_type <= 5 {
            activity_type
        } else {
            0
        };
        let status = presence_status(to_lowercase(status.as_str()).as_str());
        if self.shard_senders.len() == 0 {
            return Err("no shard senders available".to_owned());
        }
        match presence(status, kind, activity_name, false, None) {
            Some(c) => Ok(c),
            None => Err("at least one activity must be provided".to_owned()),
        }
    }

    /// What comes next when a command goes to every shard: `sent` senders were
    /// handed it so far, and `last` is what the last of them made of it.
    pub fn deliver(&self, sent: usize, last: Result<(), String>) -> (r: Delivery)
        ensures
            r@ == delivery(
                self.shard_senders@.len(),
                sent as nat,
                match last {
                    Ok(_) => Ok(()),
                    Err(e) => Err(e@),
                },
            ),
    {
        match last {
            Err(e) => Delivery::Failed(e),
            Ok(()) => if self.shard_senders.len() == 0 {
                Delivery::Failed("no shard senders available".to_owned())
            } else if sent < self.shard_senders.len() {
                Delivery::SendTo(sent)
            } else {
                Delivery::Done
            },
        }
    }

    /// The command that moves the bot to a voice channel, or out of the one it
    /// is in where no channel, or channel zero, is given.
    pub fn update_voice_state(
        &self,
        guild_id: u64,
        channel_id: Option<u64>,
        self_mute: bool,
        self_deaf: bool,
    ) -> (r: Result<ShardCommand<UpdateVoiceState>, String>)
        ensures
            match r {
                Ok(c) => route_of(self.shard_count, self.shard_senders@.len(), guild_id) == Ok::<
                    usize,
                    Seq<char>,
                >(c.shard) && voice_state_fields(c.command) == (VoiceStateFields {
                    guild_id,
                    channel_id: if channel_id == Some(0u64) {
                        None
                    } else {
                        channel_id
                    },
                    self_deaf,
                    self_mute,
                }),
                Err(e) => route_of(self.shard_count, self.shard_senders@.len(), guild_id) == Err::<
                    usize,
                    Seq<char>,
                >(e@),
            },
    {
        let shard = match self.route(guild_id) {
            Ok(shard) => shard,
            Err(e) => return Err(e),
        };
        let channel: Option<u64> = match channel_id {
            Some(c) => if c == 0 {
                None
            } else {
                Some(c)
            },
            None => None,
        };
        Ok(ShardCommand { shard, command: voice_state(guild_id, channel, self_deaf, self_mute) })
    }

    /// The request for all members of a guild.
    pub fn request_guild_members(&self, guild_id: u64) -> (r: Result<
        ShardCommand<RequestGuildMembers>,
        String,
    >)
        ensures
            match r {
                Ok(c) => route_of(self.shard_count, self.shard_senders@.len(), guild_id) == Ok::<
                    usize,
                    Seq<char>,
                >(c.shard) && guild_members_fields(c.command) == (GuildMembersFields {
                    guild_id,
                    query: ""@,
                    limit: 0,
                }),
                Err(e) => route_of(self.shard_count, self.shard_senders@.len(), guild_id) == Err::<
                    usize,
                    Seq<char>,
                >(e@),
            },
    {
        let shard = match self.route(guild_id) {
            Ok(shard) => shard,
            Err(e) => return Err(e),
        };
        Ok(ShardCommand { shard, command: guild_members(guild_id, "", None) })
    }

    /// The command that joins a voice channel.
    pub fn join_voice_channel(
        &self,
        guild_id: u64,
        channel_id: u64,
        self_mute: bool,
        self_deaf: bool,
    ) -> (r: Result<ShardCommand<UpdateVoiceState>, String>)
        ensures
            match r {
                Ok(c) => route_of(self.shard_count, self.shard_senders@.len(), guild_id) == Ok::<
                    usize,
                    Seq<char>,
                >(c.shard) && voice_state_fields(c.command) == (VoiceStateFields {
                    guild_id,
                    channel_id: if channel_id == 0 {
                        None
                    } else {
                        Some(channel_id)
                    },
                    self_deaf,
                    self_mute,
                }),
                Err(e) => route_of(self.shard_count, self.shard_senders@.len(), guild_id) == Err::<
                    usize,
                    Seq<char>,
                >(e@),
            },
    {
        self.update_voice_state(guild_id, Some(channel_id), self_mute, self_deaf)
    }

    /// The command that leaves the voice channel of a guild.
    pub fn leave_voice_channel(&self, guild_id: u64) -> (r: Result<
        ShardCommand<UpdateVoiceState>,
        String,
    >)
        ensures
            match r {
                Ok(c) => route_of(self.shard_count, self.shard_senders@.len(), guild_id) == Ok::<
                    usize,
                    Seq<char>,
                >(c.shard) && voice_state_fields(c.command) == (VoiceStateFields {
                    guild_id,
                    channel_id: None,
                    self_deaf: false,
                    self_mute: false,
                }),
                Err(e) => route_of(self.shard_count, self.shard_senders@.len(), guild_id) == Err::<
                    usize,
                    Seq<char>,
                >(e@),
            },
    {
        self.update_voice_state(guild_id, None, false, false)
    }

    /// The guild whose voice connection an audio command acts on. `in_call` says
    /// whether the voice driver has a connection for that guild.
    pub fn audio_target(&self, guild_id: u64, in_call: bool) -> (r: Result<u64, String>)
        ensures
            r is Ok <==> guild_id != 0 && self.songbird is Some && in_call,
            match r {
                Ok(g) => g == guild_id,
                Err(e) => if guild_id == 0 {
                    e@ == "invalid guild id"@
                } else if self.songbird is None {
                    e@ == "voice driver not ready"@
                } else {
                    e@ == "bot is not in a voice channel"@
                },
            },
    {
        if guild_id == 0 {
            return Err("invalid guild id".to_owned());
        }
        if self.songbird.is_none() {
            return Err("voice driver not ready".to_owned());
        }
        if !in_call {
            return Err("bot is not in a voice channel".to_owned());
        }
        Ok(guild_id)
    }

    /// The guild in which a change of volume acts on the current track.
    /// `has_track` says whether there is one.
    pub fn volume_target(&self, guild_id: u64, in_call: bool, has_track: bool) -> (r: Result<
        u64,
        String,
    >)
        ensures
            r is Ok <==> guild_id != 0 && self.songbird is Some && in_call && has_track,
            match r {
                Ok(g) => g == guild_id,
                Err(e) => if guild_id == 0 {
                    e@ == "invalid guild id"@
                } else if self.songbird is None {
                    e@ == "voice driver not ready"@
                } else if !in_call {
                    e@ == "bot is not in a voice channel"@
                } else {
                    e@ == "no active track"@
                },
            },
    {
        match self.audio_target(guild_id, in_call) {
            Ok(g) => if has_track {
                Ok(g)
            } else {
                Err("no active track".to_owned())
            },
            Err(e) => Err(e),
        }
    }
}

proof fn lemma_all_accept(
    senders: nat,
    sent: nat,
    says: spec_fn(int) -> Result<(), Seq<char>>,
)
    requires
        0 < senders,
        sent <= senders,
        forall|i: int| sent <= i < senders ==> (#[trigger] says(i)) is Ok,
    ensures
        delivered(senders, sent, Ok(()), says).0 == Seq::new(
            (senders - sent) as nat,
            |i: int| sent + i,
        ),
        delivered(senders, sent, Ok(()), says).1 is Ok,
    decreases senders - sent,
{
    let all = Seq::new((senders - sent) as nat, |i: int| sent + i);
    if sent < senders {
        lemma_all_accept(senders, sent + 1, says);
        assert(says(sent as int)->Ok_0 == ());
        assert(all =~= seq![sent as int] + Seq::new(
            (senders - sent - 1) as nat,
            |i: int| sent + 1 + i,
        ));
    } else {
        assert(all =~= Seq::<int>::empty());
    }
}

proof fn lemma_first_refusal(
    senders: nat,
    sent: nat,
    first: int,
    says: spec_fn(int) -> Result<(), Seq<char>>,
)
    requires
        sent <= first < senders,
        forall|i: int| sent <= i < first ==> (#[trigger] says(i)) is Ok,
        says(first) is Err,
    ensures
        delivered(senders, sent, Ok(()), says).0 == Seq::new(
            (first + 1 - sent) as nat,
            |i: int| sent + i,
        ),
        delivered(senders, sent, Ok(()), says).1 == says(first),
    decreases senders - sent,
{
    let asked = Seq::new((first + 1 - sent) as nat, |i: int| sent + i);
    if sent < first {
        lemma_first_refusal(senders, sent + 1, first, says);
        assert(says(sent as int)->Ok_0 == ());
        assert(asked =~= seq![sent as int] + Seq::new(
            (first - sent) as nat,
            |i: int| sent + 1 + i,
        ));
    } else {
        reveal_with_fuel(delivered, 2);
        assert(asked =~= seq![sent as int] + Seq::<int>::empty());
    }
}

/// A command for every shard is handed to each sender once, in order, and
/// succeeds, where there are senders and all of them take it.
pub proof fn law_every_sender_is_handed_the_command(
    senders: nat,
    says: spec_fn(int) -> Result<(), Seq<char>>,
)
    requires
        0 < senders,
        forall|i: int| 0 <= i < senders ==> (#[trigger] says(i)) is Ok,
    ensures
        delivered(senders, 0, Ok(()), says) == (
            Seq::new(senders, |i: int| i),
            Ok::<(), Seq<char>>(()),
        ),
{
    lemma_all_accept(senders, 0, says);
    assert(delivered(senders, 0, Ok(()), says).1->Ok_0 == ());
    assert(delivered(senders, 0, Ok(()), says).0 =~= Seq::new(senders, |i: int| i));
}

/// A command for every shard goes no further than to the first sender that
/// refuses it: those before it were handed it once each, those after it are not,
/// and what it said is the result.
pub proof fn law_first_refusal_ends_the_delivery(
    senders: nat,
    first: int,
    says: spec_fn(int) -> Result<(), Seq<char>>,
)
    requires
        0 <= first < senders,
        forall|i: int| 0 <= i < first ==> (#[trigger] says(i)) is Ok,
        says(first) is Err,
    ensures
        delivered(senders, 0, Ok(()), says) == (
            Seq::new((first + 1) as nat, |i: int| i),
            says(first),
        ),
{
    lemma_first_refusal(senders, 0, first, says);
    assert(delivered(senders, 0, Ok(()), says).0 =~= Seq::new((first + 1) as nat, |i: int| i));
}

/// Without senders a command for every shard is handed to none, and fails.
pub proof fn law_no_sender_no_delivery(says: spec_fn(int) -> Result<(), Seq<char>>)
    ensures
        delivered(0, 0, Ok(()), says) == (
            Seq::<int>::empty(),
            Err::<(), Seq<char>>("no shard senders available"@),
        ),
{
}

/// The shard of a guild is one of the shards.
pub proof fn law_shard_in_range(guild_id: u64, shard_count: u64)
    requires
        shard_count > 0,
    ensures
        0 <= shard_of(guild_id, shard_count) < shard_count,
{
    assert(0 <= shard_of(guild_id, shard_count) < shard_count) by (nonlinear_arith)
        requires
            shard_count > 0,
            shard_of(guild_id, shard_count) == (guild_id as int / 4_194_304) % (shard_count as int),
    ;
}

/// With a sender for every shard each guild has a sender: the only guild that a
/// command cannot go to is guild zero.
pub proof fn law_every_guild_has_a_sender(shard_count: u64, guild_id: u64)
    requires
        0 < shard_count <= usize::MAX,
        guild_id != 0,
    ensures
        route_of(shard_count, shard_count as nat, guild_id) == Ok::<usize, Seq<char>>(
            shard_of(guild_id, shard_count) as usize,
        ),
{
    law_shard_in_range(guild_id, shard_count);
}

} // verus!
