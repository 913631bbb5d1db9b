use twilight_model::gateway::presence::{ActivityType, Status};
use ynsrvcs::wasm::gateway::{presence_status, Delivery, GatewayState, PresenceStatus};

fn connected(shards: u64) -> GatewayState<u8, u8> {
    let mut gateway = GatewayState::new();
    gateway.shard_count = shards;
    gateway.shard_senders = vec![0; shards as usize];
    gateway
}

fn guild_on(shard: u64) -> u64 {
    (shard << 22) + 1
}

#[test]
fn nothing_is_known_at_first() {
    let gateway: GatewayState<u8, u8> = GatewayState::new();
    assert_eq!(gateway.gateway_ping_ms, 0);
    assert_eq!(gateway.application_id, 0);
    assert!(gateway.shard_senders.is_empty());
    assert_eq!(gateway.shard_count, 0);
    assert!(gateway.songbird.is_none());
}

#[test]
fn guilds_are_spread_over_the_shards() {
    let gateway = connected(3);
    assert_eq!(gateway.route(guild_on(0)), Ok(0));
    assert_eq!(gateway.route(guild_on(1)), Ok(1));
    assert_eq!(gateway.route(guild_on(2)), Ok(2));
    assert_eq!(gateway.route(guild_on(3)), Ok(0));
    assert_eq!(gateway.route(41771983423143937), Ok((41771983423143937u64 >> 22) as usize % 3));
    assert_eq!(gateway.route(u64::MAX), Ok((u64::MAX >> 22) as usize % 3));
}

#[test]
fn a_command_that_goes_nowhere_is_refused() {
    assert_eq!(connected(0).route(0), Err("shards not ready".to_string()));
    let mut gateway = connected(2);
    assert_eq!(gateway.route(0), Err("invalid guild id".to_string()));
    gateway.shard_senders = vec![0];
    assert_eq!(gateway.route(guild_on(1)), Err("shard sender not found".to_string()));
    gateway.shard_senders = vec![];
    assert_eq!(gateway.route(0), Err("shard sender not found".to_string()));
}

#[test]
fn a_presence_says_what_was_asked_for() {
    let gateway = connected(1);
    let command = gateway.update_presence("DND".to_string(), 2, "music".to_string()).unwrap();
    assert_eq!(command.d.status, Status::DoNotDisturb);
    assert_eq!(command.d.activities.len(), 1);
    assert_eq!(command.d.activities[0].kind, ActivityType::Listening);
    assert_eq!(command.d.activities[0].name, "music");
    assert_eq!(command.d.activities[0].url, None);
    assert!(!command.d.afk);
    assert_eq!(command.d.since, None);
}

#[test]
fn every_status_and_activity_is_known() {
    let gateway = connected(1);
    let statuses = [
        ("dnd", Status::DoNotDisturb),
        ("DoNotDisturb", Status::DoNotDisturb),
        ("Idle", Status::Idle),
        ("invisible", Status::Invisible),
        ("OFFLINE", Status::Offline),
        ("online", Status::Online),
        ("", Status::Online),
        ("away", Status::Online),
    ];
    for (word, status) in statuses {
        let command = gateway.update_presence(word.to_string(), 0, String::new()).unwrap();
        assert_eq!(command.d.status, status);
    }
    let kinds = [
        (0, ActivityType::Playing),
        (1, ActivityType::Streaming),
        (2, ActivityType::Listening),
        (3, ActivityType::Watching),
        (4, ActivityType::Custom),
        (5, ActivityType::Competing),
        (6, ActivityType::Playing),
        (255, ActivityType::Playing),
    ];
    for (number, kind) in kinds {
        let command = gateway.update_presence(String::new(), number, String::new()).unwrap();
        assert_eq!(command.d.activities[0].kind, kind);
    }
    assert_eq!(presence_status("idle"), PresenceStatus::Idle);
    assert_eq!(presence_status("Idle"), PresenceStatus::Online);
}

fn deliver(shards: u64, refusing: Option<usize>) -> (Vec<usize>, Result<(), String>) {
    let gateway = connected(shards);
    let mut asked = vec![];
    let mut last = Ok(());
    loop {
        match gateway.deliver(asked.len(), last) {
            Delivery::SendTo(index) => {
                asked.push(index);
                last = if refusing == Some(index) {
                    Err(format!("{index} is closed"))
                } else {
                    Ok(())
                };
            }
            Delivery::Done => return (asked, Ok(())),
            Delivery::Failed(reason) => return (asked, Err(reason)),
        }
    }
}

#[test]
fn a_presence_goes_to_every_shard_in_order() {
    assert_eq!(deliver(3, None), (vec![0, 1, 2], Ok(())));
    assert_eq!(deliver(1, None), (vec![0], Ok(())));
}

#[test]
fn the_first_refusal_ends_the_delivery() {
    assert_eq!(deliver(3, Some(1)), (vec![0, 1], Err("1 is closed".to_string())));
    assert_eq!(deliver(3, Some(2)), (vec![0, 1, 2], Err("2 is closed".to_string())));
    assert_eq!(deliver(0, None), (vec![], Err("no shard senders available".to_string())));
}

#[test]
fn a_presence_needs_a_shard() {
    let refused = connected(0).update_presence("idle".to_string(), 0, "x".to_string());
    assert_eq!(refused.err(), Some("no shard senders available".to_string()));
}

#[test]
fn a_voice_state_says_what_was_asked_for() {
    let gateway = connected(2);
    let c = gateway.update_voice_state(guild_on(1), Some(5), true, false).unwrap_or_else(|e| panic!("{e}"));
    assert_eq!(c.shard, 1);
    assert_eq!(c.command.d.guild_id.get(), guild_on(1));
    assert_eq!(c.command.d.channel_id.map(|id| id.get()), Some(5));
    assert!(c.command.d.self_mute);
    assert!(!c.command.d.self_deaf);

    let c = gateway.join_voice_channel(guild_on(0), 6, false, true).unwrap_or_else(|e| panic!("{e}"));
    assert_eq!(c.shard, 0);
    assert_eq!(c.command.d.channel_id.map(|id| id.get()), Some(6));
    assert!(!c.command.d.self_mute);
    assert!(c.command.d.self_deaf);

    let c = gateway.join_voice_channel(guild_on(0), 0, false, true).unwrap_or_else(|e| panic!("{e}"));
    assert_eq!(c.command.d.channel_id, None);

    let c = gateway.leave_voice_channel(guild_on(0)).unwrap_or_else(|e| panic!("{e}"));
    assert_eq!(c.command.d.channel_id, None);
    assert!(!c.command.d.self_mute);
    assert!(!c.command.d.self_deaf);

    assert_eq!(gateway.leave_voice_channel(0).err(), Some("invalid guild id".to_string()));
}

#[test]
fn all_members_of_a_guild_are_asked_for() {
    let c = connected(2).request_guild_members(guild_on(1)).unwrap_or_else(|e| panic!("{e}"));
    assert_eq!(c.shard, 1);
    assert_eq!(c.command.d.guild_id.get(), guild_on(1));
    assert_eq!(c.command.d.query, Some(String::new()));
    assert_eq!(c.command.d.limit, Some(0));
    assert_eq!(connected(0).request_guild_members(1).err(), Some("shards not ready".to_string()));
}

#[test]
fn audio_needs_a_voice_connection() {
    let mut gateway = connected(1);
    assert_eq!(gateway.audio_target(0, true), Err("invalid guild id".to_string()));
    assert_eq!(gateway.audio_target(1, true), Err("voice driver not ready".to_string()));
    gateway.songbird = Some(0);
    assert_eq!(gateway.audio_target(1, false), Err("bot is not in a voice channel".to_string()));
    assert_eq!(gateway.audio_target(1, true), Ok(1));
    assert_eq!(gateway.volume_target(1, true, false), Err("no active track".to_string()));
    assert_eq!(
        gateway.volume_target(1, false, true),
        Err("bot is not in a voice channel".to_string())
    );
    assert_eq!(gateway.volume_target(1, true, true), Ok(1));
}
