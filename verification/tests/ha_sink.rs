use teams_status::home_assistant::api::absorb;
use teams_status::home_assistant::api::flag_to_publish;
use teams_status::home_assistant::api::state_request;
use teams_status::home_assistant::api::text_of_attribute;
use teams_status::home_assistant::api::HaApi;
use teams_status::home_assistant::api::HaPhase;
use teams_status::home_assistant::configuration::create_ha_configuration;
use teams_status::home_assistant::configuration::HaConfiguration;
use teams_status::teams_ws::states::Flag;
use teams_status::teams_ws::states::TeamsStates;
use teams_status::traits::Listener;
use teams_status::traits::SinkAction;
use teams_status::traits::SinkEvent;

fn configuration() -> HaConfiguration {
    let mut conf = create_ha_configuration();
    conf.url = "http://homeassistant.local:8123".to_string();
    conf.long_live_token = "token".to_string();
    conf
}

struct Push {
    probes: u32,
    fetched: Vec<String>,
    written: Vec<(String, String)>,
    result: Result<(), String>,
}

/// Runs a push against a Home Assistant whose API runs for the first
/// `healthy` probes and which accepts every request.
fn push(sink: &mut HaApi, states: &mut TeamsStates, force_update: bool, healthy: u32) -> Push {
    let mut run = Push { probes: 0, fetched: Vec::new(), written: Vec::new(), result: Ok(()) };
    let mut action = sink.notify_changed(states, force_update);
    for _ in 0..100 {
        action = match action {
            SinkAction::Probe(_) => {
                run.probes += 1;
                sink.resume(states, SinkEvent::Probed { ready: run.probes <= healthy })
            }
            SinkAction::FetchAttributes { entity_id } => {
                run.fetched.push(entity_id);
                sink.resume(states, SinkEvent::Attributes(Some(Vec::new())))
            }
            SinkAction::SetState(request) => {
                run.written.push((request.entity_id, request.state));
                sink.resume(states, SinkEvent::StateSet { accepted: true })
            }
            SinkAction::Done(result) => {
                run.result = result.map_err(|error| error.to_string());
                return run;
            }
            _ => panic!("the sink asked for something else"),
        };
    }
    panic!("the push did not end");
}

#[test]
fn default_ha_settings() {
    let conf = create_ha_configuration();
    assert_eq!(conf.url, "");
    assert_eq!(conf.long_live_token, "");
    let entities = &conf.entities;
    assert_eq!(entities.is_muted.id, "binary_sensor.teams_muted");
    assert_eq!(entities.is_muted.friendly_name, "Teams Muted");
    assert_eq!(entities.is_muted.icons.on, "mdi:microphone");
    assert_eq!(entities.is_muted.icons.off, "mdi:microphone-off");
    assert_eq!(entities.is_video_on.id, "binary_sensor.teams_video");
    assert_eq!(entities.is_video_on.icons.on, "mdi:webcam");
    assert_eq!(entities.is_hand_raised.id, "binary_sensor.teams_hand_raised");
    assert_eq!(entities.is_hand_raised.icons.off, "mdi:hand-back-left-off");
    assert_eq!(entities.is_in_meeting.id, "binary_sensor.teams_meeting");
    assert_eq!(entities.is_in_meeting.icons.on, "mdi:phone-in-talk");
    assert_eq!(entities.is_in_meeting.icons.off, "mdi:phone-off");
    assert_eq!(entities.is_recording_on.friendly_name, "Teams Recording");
    assert_eq!(entities.is_recording_on.icons.on, "mdi:record-rec");
    assert_eq!(entities.is_recording_on.icons.off, "mdi:power-off");
    assert_eq!(entities.is_background_blurred.id, "binary_sensor.teams_background_blurred");
    assert_eq!(entities.is_background_blurred.icons.on, "mdi:blur");
    assert_eq!(entities.is_sharing.icons.on, "mdi:projector-screen");
    assert_eq!(entities.has_unread_messages.id, "binary_sensor.teams_unread_messages");
    assert_eq!(entities.has_unread_messages.icons.off, "mdi:message-off");
    assert!(entities.is_sharing.additional_attributes.is_empty());
    assert_eq!(entities.entity(Flag::Sharing).friendly_name, "Teams Sharing");
}

#[test]
fn entities_come_in_the_order_of_the_flags() {
    let list = create_ha_configuration().entities.into_iter();
    let ids: Vec<&str> = list.iter().map(|(id, _)| id.as_str()).collect();
    assert_eq!(
        ids,
        vec![
            "binary_sensor.teams_muted",
            "binary_sensor.teams_video",
            "binary_sensor.teams_hand_raised",
            "binary_sensor.teams_meeting",
            "binary_sensor.teams_recording",
            "binary_sensor.teams_background_blurred",
            "binary_sensor.teams_sharing",
            "binary_sensor.teams_unread_messages",
        ]
    );
    assert_eq!(list[3].1.friendly_name, "Teams Meeting");
}

#[test]
fn flags_are_pushed_meeting_first() {
    let order: Vec<Flag> = (0..8).map(flag_to_publish).collect();
    assert_eq!(
        order,
        vec![
            Flag::InMeeting,
            Flag::VideoOn,
            Flag::Muted,
            Flag::HandRaised,
            Flag::RecordingOn,
            Flag::BackgroundBlurred,
            Flag::Sharing,
            Flag::UnreadMessages,
        ]
    );
}

#[test]
fn request_repeats_name_icon_and_attributes() {
    let mut conf = configuration();
    conf.entities.is_muted.set_attribute("device_class".to_string(), "sound".to_string());
    let on = state_request(&conf.entities.is_muted, true);
    assert_eq!(on.entity_id, "binary_sensor.teams_muted");
    assert_eq!(on.state, "on");
    assert_eq!(
        on.attributes,
        vec![
            ("friendly_name".to_string(), "Teams Muted".to_string()),
            ("icon".to_string(), "mdi:microphone".to_string()),
            ("device_class".to_string(), "sound".to_string()),
        ]
    );
    let off = state_request(&conf.entities.is_muted, false);
    assert_eq!(off.state, "off");
    assert_eq!(off.attributes[1], ("icon".to_string(), "mdi:microphone-off".to_string()));
}

#[test]
fn set_attribute_replaces_in_place() {
    let mut entity = create_ha_configuration().entities.is_sharing;
    entity.set_attribute("a".to_string(), "1".to_string());
    entity.set_attribute("b".to_string(), "2".to_string());
    entity.set_attribute("a".to_string(), "3".to_string());
    assert_eq!(
        entity.additional_attributes,
        vec![("a".to_string(), "3".to_string()), ("b".to_string(), "2".to_string())]
    );
    let copy = entity.duplicate();
    assert_eq!(copy.additional_attributes, entity.additional_attributes);
    assert_eq!(copy.id, entity.id);
}

#[test]
fn fetched_attributes_are_kept_as_text() {
    assert_eq!(text_of_attribute(&serde_json::Value::String("plain".to_string())), "plain");
    assert_eq!(text_of_attribute(&serde_json::Value::from(12)), "12");
    assert_eq!(text_of_attribute(&serde_json::Value::Bool(true)), "true");
    assert_eq!(text_of_attribute(&serde_json::Value::Null), "null");
    let list = serde_json::Value::Array(vec![serde_json::Value::from(1), serde_json::Value::from("x")]);
    assert_eq!(text_of_attribute(&list), "[1,\"x\"]");
}

#[test]
fn absorb_passes_name_and_icon_over() {
    let mut entity = create_ha_configuration().entities.is_muted;
    let fetched = vec![
        ("friendly_name".to_string(), serde_json::Value::String("Other".to_string())),
        ("device_class".to_string(), serde_json::Value::String("sound".to_string())),
        ("icon".to_string(), serde_json::Value::String("mdi:other".to_string())),
        ("count".to_string(), serde_json::Value::from(3)),
        ("device_class".to_string(), serde_json::Value::String("noise".to_string())),
    ];
    absorb(&mut entity, &fetched);
    assert_eq!(entity.friendly_name, "Teams Muted");
    assert_eq!(
        entity.additional_attributes,
        vec![
            ("device_class".to_string(), "noise".to_string()),
            ("count".to_string(), "3".to_string()),
        ]
    );
}

#[test]
fn first_forced_push_fetches_then_writes_every_flag() {
    let mut sink = HaApi::new(configuration());
    let mut states = TeamsStates::new();
    states.is_in_meeting = true;
    let run = push(&mut sink, &mut states, true, 100);
    assert_eq!(run.result, Ok(()));
    assert_eq!(run.fetched.len(), 8);
    assert_eq!(run.fetched[0], "binary_sensor.teams_muted");
    assert_eq!(run.fetched[7], "binary_sensor.teams_unread_messages");
    assert_eq!(run.probes, 9);
    assert_eq!(run.written.len(), 8);
    assert_eq!(run.written[0], ("binary_sensor.teams_meeting".to_string(), "on".to_string()));
    assert_eq!(run.written[1], ("binary_sensor.teams_video".to_string(), "off".to_string()));
    assert_eq!(run.written[2], ("binary_sensor.teams_muted".to_string(), "off".to_string()));
    assert!(sink.queried_attributes);
    assert_eq!(sink.phase, HaPhase::Idle);
    assert!(states.prev_is_in_meeting);
    assert!(states.is_in_meeting);
}

#[test]
fn second_push_of_the_same_snapshot_writes_nothing() {
    let mut sink = HaApi::new(configuration());
    let mut states = TeamsStates::new();
    states.is_in_meeting = true;
    states.is_muted = true;
    let first = push(&mut sink, &mut states, false, 100);
    assert_eq!(first.result, Ok(()));
    assert_eq!(
        first.written,
        vec![
            ("binary_sensor.teams_meeting".to_string(), "on".to_string()),
            ("binary_sensor.teams_muted".to_string(), "on".to_string()),
        ]
    );
    let second = push(&mut sink, &mut states, false, 100);
    assert_eq!(second.result, Ok(()));
    assert!(second.written.is_empty());
    assert_eq!(second.probes, 0);
    assert!(second.fetched.is_empty());
}

#[test]
fn push_that_failed_half_way_is_finished_by_the_next() {
    let mut sink = HaApi::new(configuration());
    sink.queried_attributes = true;
    let mut states = TeamsStates::new();
    states.is_in_meeting = true;
    states.is_sharing = true;
    let first = push(&mut sink, &mut states, false, 1);
    assert_eq!(first.result, Err("Home Assistant API cannot be reached".to_string()));
    assert_eq!(first.written.len(), 1);
    assert_eq!(first.written[0].0, "binary_sensor.teams_meeting");
    let second = push(&mut sink, &mut states, false, 100);
    assert_eq!(second.result, Ok(()));
    assert_eq!(second.written.len(), 1);
    assert_eq!(second.written[0].0, "binary_sensor.teams_sharing");
}

#[test]
fn probe_that_fails_before_the_fetch_ends_the_push() {
    let mut sink = HaApi::new(configuration());
    let mut states = TeamsStates::new();
    let run = push(&mut sink, &mut states, true, 0);
    assert_eq!(run.result, Err("Home Assistant API cannot be reached".to_string()));
    assert!(run.fetched.is_empty());
    assert!(run.written.is_empty());
    assert!(!sink.queried_attributes);
}

#[test]
fn address_that_is_no_url_fails_the_push() {
    let mut conf = create_ha_configuration();
    conf.url = "homeassistant".to_string();
    let mut sink = HaApi::new(conf);
    let mut states = TeamsStates::new();
    let run = push(&mut sink, &mut states, true, 100);
    assert_eq!(
        run.result,
        Err("Home Assistant: Unable to parse the URL: relative URL without a base".to_string())
    );
    assert_eq!(run.probes, 0);
}

#[test]
fn rejected_write_counts_as_pushed() {
    let mut sink = HaApi::new(configuration());
    sink.queried_attributes = true;
    let mut states = TeamsStates::new();
    states.is_muted = true;
    assert!(matches!(sink.notify_changed(&mut states, false), SinkAction::Probe(_)));
    assert!(matches!(
        sink.resume(&mut states, SinkEvent::Probed { ready: true }),
        SinkAction::SetState(_)
    ));
    assert!(!states.prev_is_muted);
    assert!(matches!(
        sink.resume(&mut states, SinkEvent::StateSet { accepted: false }),
        SinkAction::Done(Ok(()))
    ));
    assert!(states.prev_is_muted);
}

#[test]
fn entity_that_cannot_be_fetched_keeps_its_attributes() {
    let mut sink = HaApi::new(configuration());
    let mut states = TeamsStates::new();
    assert!(matches!(sink.notify_changed(&mut states, false), SinkAction::Probe(_)));
    assert!(matches!(
        sink.resume(&mut states, SinkEvent::Probed { ready: true }),
        SinkAction::FetchAttributes { .. }
    ));
    let fetched = vec![("unit".to_string(), serde_json::Value::String("x".to_string()))];
    match sink.resume(&mut states, SinkEvent::Attributes(Some(fetched))) {
        SinkAction::FetchAttributes { entity_id } => assert_eq!(entity_id, "binary_sensor.teams_video"),
        _ => panic!("expected the next fetch"),
    }
    assert!(matches!(
        sink.resume(&mut states, SinkEvent::Attributes(None)),
        SinkAction::FetchAttributes { .. }
    ));
    assert_eq!(
        sink.ha_configuration.entities.is_muted.additional_attributes,
        vec![("unit".to_string(), "x".to_string())]
    );
    assert!(sink.ha_configuration.entities.is_video_on.additional_attributes.is_empty());
    assert_eq!(sink.phase, HaPhase::RefreshFetch { index: 2 });
}

#[test]
fn ha_report_out_of_turn_is_passed_over() {
    let mut sink = HaApi::new(configuration());
    let mut states = TeamsStates::new();
    assert!(matches!(
        sink.resume(&mut states, SinkEvent::Probed { ready: true }),
        SinkAction::Nothing
    ));
    assert!(matches!(sink.notify_changed(&mut states, false), SinkAction::Probe(_)));
    assert!(matches!(
        sink.resume(&mut states, SinkEvent::StateSet { accepted: true }),
        SinkAction::Nothing
    ));
    assert!(matches!(sink.resume(&mut states, SinkEvent::Connected), SinkAction::Nothing));
    assert_eq!(sink.phase, HaPhase::RefreshProbe);
}

#[test]
fn reconnect_is_done_at_once() {
    let mut sink = HaApi::new(configuration());
    assert!(matches!(sink.reconnect(), SinkAction::Done(Ok(()))));
    assert_eq!(sink.phase, HaPhase::Idle);
}
