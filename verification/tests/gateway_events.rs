use serde_json::Value;
use ynsrvcs::bot::handler::{
    effects, fetch_recommended_shard_count, gateway_intents, handle_frame, next_step, ping_ms,
    plan_dispatch, plan_frame, prefer_stop, read_shard_count, shard_count_request, shard_ids,
    shard_map, Effect, FrameHeader, Intent, Received, Skip, Step, VoiceEvent,
};
use ynsrvcs::http::{Body, Timeout};

fn json(text: &str) -> Value {
    serde_json::from_str(text).unwrap()
}

#[test]
fn three_groups_of_events_are_subscribed_to() {
    assert_eq!(
        gateway_intents(),
        vec![Intent::GuildMessages, Intent::MessageContent, Intent::GuildVoiceStates]
    );
}

#[test]
fn shards_are_numbered_from_zero() {
    assert_eq!(shard_ids(0), vec![]);
    assert_eq!(shard_ids(3), vec![(0, 3), (1, 3), (2, 3)]);
    assert_eq!(shard_map(vec!["a", "b"]), vec![(0, "a"), (1, "b")]);
}

#[test]
fn the_number_of_shards_is_asked_for() {
    let request = shard_count_request("secret");
    assert_eq!(request.method, "GET");
    assert_eq!(request.url, "https://discord.com/api/v10/gateway/bot");
    assert_eq!(request.headers, vec![("Authorization".to_string(), "Bot secret".to_string())]);
    assert!(matches!(request.body, Body::Empty));
    assert_eq!(request.timeout, Some(Timeout::Exchange(15)));
}

#[test]
fn at_least_one_shard_is_opened() {
    assert_eq!(fetch_recommended_shard_count(&json(r#"{"shards":7}"#)), 7);
    assert_eq!(fetch_recommended_shard_count(&json(r#"{"shards":0}"#)), 1);
    assert_eq!(fetch_recommended_shard_count(&json(r#"{"shards":-3}"#)), 1);
    assert_eq!(fetch_recommended_shard_count(&json(r#"{"shards":2.5}"#)), 1);
    assert_eq!(fetch_recommended_shard_count(&json(r#"{"shards":"7"}"#)), 1);
    assert_eq!(fetch_recommended_shard_count(&json("{}")), 1);
    assert_eq!(fetch_recommended_shard_count(&json("[]")), 1);
}

#[test]
fn the_number_of_shards_is_read_from_the_answer() {
    assert_eq!(read_shard_count(&br#"{"shards":7}"#.to_vec()), Ok(7));
    assert_eq!(read_shard_count(&b"null".to_vec()), Ok(1));
    let refused = Err("error decoding response body".to_string());
    assert_eq!(read_shard_count(&b"<html>".to_vec()), refused);
    assert_eq!(read_shard_count(&vec![]), refused);
}

#[test]
fn a_stop_goes_before_a_waiting_frame() {
    let frame = || Received::Text("x".to_string());
    assert!(matches!(prefer_stop(true, frame()), Received::Stop));
    assert!(matches!(prefer_stop(true, Received::Ended), Received::Stop));
    assert!(matches!(prefer_stop(false, frame()), Received::Text(t) if t == "x"));
}

#[test]
fn the_plugins_get_an_event_after_all_else() {
    let data = json(r#"{"user":{"id":"77"},"application":{"id":"88"},"guild_id":"9"}"#);
    let done = effects(plan_dispatch("READY".to_string(), &data));
    assert_eq!(done.len(), 4);
    assert!(matches!(done[0], Effect::StartVoiceDriver(77)));
    assert!(matches!(done[1], Effect::SetApplicationId(88)));
    assert!(matches!(done[2], Effect::MeasurePing));
    assert!(matches!(&done[3], Effect::DispatchEvent { event_name, guild_id: 9, channel_id: 0, .. }
        if event_name == "READY"));

    let data = json(r#"{"endpoint":"e","guild_id":"9","token":"t"}"#);
    let done = effects(plan_dispatch("VOICE_SERVER_UPDATE".to_string(), &data));
    assert_eq!(done.len(), 3);
    assert!(matches!(done[0], Effect::ProcessVoiceEvent(VoiceEvent::Server(_))));
    assert!(matches!(done[1], Effect::MeasurePing));
    assert!(matches!(done[2], Effect::DispatchEvent { .. }));
}

#[test]
fn a_shard_goes_on_after_an_error() {
    assert!(matches!(next_step(Received::Text("x".to_string())), Step::Handle(t) if t == "x"));
    assert!(matches!(next_step(Received::Failed), Step::Continue));
    assert!(matches!(next_step(Received::Close), Step::Leave));
    assert!(matches!(next_step(Received::Ended), Step::Leave));
    assert!(matches!(next_step(Received::Stop), Step::CloseAndLeave));
}

#[test]
fn a_message_is_dispatched_with_its_guild_and_channel() {
    let text = r#"{"op":0,"s":1,"t":"MESSAGE_CREATE","d":{"guild_id":"12","channel_id":"34","content":"hi"}}"#;
    let dispatch = handle_frame(text).unwrap_or_else(|_| panic!("not dispatched"));
    assert_eq!(dispatch.event_name, "MESSAGE_CREATE");
    assert_eq!(dispatch.guild_id, 12);
    assert_eq!(dispatch.channel_id, 34);
    assert_eq!(
        dispatch.payload,
        br#"{"channel_id":"34","content":"hi","guild_id":"12"}"#.to_vec()
    );
    assert!(dispatch.ready.is_none());
    assert!(dispatch.voice.is_none());
}

#[test]
fn frames_that_are_no_events_are_passed_over() {
    assert!(matches!(handle_frame(r#"{"op":11}"#), Err(Skip::NotAnEvent)));
    assert!(matches!(handle_frame("nonsense"), Err(Skip::NoHeader)));
    assert!(matches!(handle_frame(""), Err(Skip::NoHeader)));
}

#[test]
fn a_broken_event_is_passed_over() {
    let text = r#"{"op":0,"s":1,"t":"MESSAGE_CREATE","d":{"#;
    assert!(matches!(handle_frame(text), Err(Skip::NotJson)));
}

#[test]
fn a_frame_is_judged_by_its_header_first() {
    let header = |op: u8| Some(FrameHeader { op, event_type: None });
    let good = || Ok(json(r#"{"d":1}"#));
    let bad = || Err("no".to_string());
    assert!(matches!(plan_frame(None, good()), Err(Skip::NoHeader)));
    assert!(matches!(plan_frame(header(1), bad()), Err(Skip::NotAnEvent)));
    assert!(matches!(plan_frame(header(0), bad()), Err(Skip::NotJson)));
    let dispatch = plan_frame(header(0), good()).unwrap_or_else(|_| panic!("not dispatched"));
    assert_eq!(dispatch.event_name, "UNKNOWN");
    assert_eq!(dispatch.payload, b"1".to_vec());
}

#[test]
fn an_event_without_data_has_null_for_data() {
    let header = Some(FrameHeader { op: 0, event_type: Some("RESUMED".to_string()) });
    let dispatch =
        plan_frame(header, Ok(json(r#"{"op":0}"#))).unwrap_or_else(|_| panic!("not dispatched"));
    assert_eq!(dispatch.payload, b"null".to_vec());
    assert_eq!(dispatch.guild_id, 0);
    assert_eq!(dispatch.channel_id, 0);
}

#[test]
fn equal_data_is_dispatched_alike() {
    let one = handle_frame(r#"{"op":0,"s":1,"t":"X","d":{"a":1}}"#);
    let two = handle_frame(r#"{"op":0,"s":2,"t":"X","d":{"a":1},"extra":true}"#);
    let one = one.unwrap_or_else(|_| panic!("not dispatched"));
    let two = two.unwrap_or_else(|_| panic!("not dispatched"));
    assert_eq!(one.payload, two.payload);
    assert_eq!(one.event_name, two.event_name);
}

#[test]
fn the_channel_may_be_given_as_an_object() {
    let plan = |text: &str| plan_dispatch("X".to_string(), &json(text)).channel_id;
    assert_eq!(plan(r#"{"channel":{"id":"5"}}"#), 5);
    assert_eq!(plan(r#"{"channel_id":"4","channel":{"id":"5"}}"#), 4);
    assert_eq!(plan(r#"{"channel_id":"bad","channel":{"id":"5"}}"#), 5);
    assert_eq!(plan(r#"{"channel_id":4}"#), 0);
    assert_eq!(plan(r#"{"channel":"5"}"#), 0);
}

#[test]
fn a_ready_event_names_the_bot() {
    let data = json(r#"{"user":{"id":"77","username":"bot"},"application":{"id":"88"}}"#);
    let ready = plan_dispatch("READY".to_string(), &data).ready.unwrap();
    assert_eq!(ready.user_id, Some(77));
    assert_eq!(ready.application_id, Some(88));

    let data = json(r#"{"user":{"id":"0"},"application":{"id":"0"}}"#);
    let ready = plan_dispatch("READY".to_string(), &data).ready.unwrap();
    assert_eq!(ready.user_id, None);
    assert_eq!(ready.application_id, Some(0));

    let ready = plan_dispatch("READY".to_string(), &json("{}")).ready.unwrap();
    assert_eq!(ready.user_id, None);
    assert_eq!(ready.application_id, None);

    let data = json(r#"{"user":{"id":"77"},"application":{"id":"88"}}"#);
    assert!(plan_dispatch("RESUMED".to_string(), &data).ready.is_none());
}

#[test]
fn voice_events_go_to_the_voice_driver() {
    let data = json(r#"{"endpoint":"e","guild_id":"9","token":"t"}"#);
    match plan_dispatch("VOICE_SERVER_UPDATE".to_string(), &data).voice {
        Some(VoiceEvent::Server(update)) => {
            assert_eq!(update.token, "t");
            assert_eq!(update.guild_id.get(), 9);
        }
        _ => panic!("no voice server"),
    }
    let data = json(
        r#"{"channel_id":"1","deaf":false,"guild_id":"9","mute":false,"self_deaf":true,
            "self_mute":false,"self_stream":false,"self_video":false,"session_id":"s","suppress":false,"user_id":"3"}"#,
    );
    match plan_dispatch("VOICE_STATE_UPDATE".to_string(), &data).voice {
        Some(VoiceEvent::State(update)) => {
            assert_eq!(update.session_id, "s");
            assert!(update.self_deaf);
        }
        _ => panic!("no voice state"),
    }
    assert!(plan_dispatch("VOICE_STATE_UPDATE".to_string(), &json("{}")).voice.is_none());
    assert!(plan_dispatch("VOICE_SERVER_UPDATE".to_string(), &json("1")).voice.is_none());
    assert!(plan_dispatch("MESSAGE_CREATE".to_string(), &data).voice.is_none());
}

#[test]
fn the_round_trip_time_is_zero_until_it_is_measured() {
    assert_eq!(ping_ms(None), 0);
    assert_eq!(ping_ms(Some(42)), 42);
}
