use teams_status::error::Error;
use teams_status::mqtt::api::payload;
use teams_status::mqtt::api::MqttApi;
use teams_status::mqtt::configuration::begins_with_mqtt_scheme;
use teams_status::mqtt::configuration::create_mqtt_configuration;
use teams_status::mqtt::configuration::MQTT_PORT_DEFAULT;
use teams_status::teams_ws::states::Flag;
use teams_status::teams_ws::states::TeamsStates;
use teams_status::traits::Listener;
use teams_status::traits::Qos;
use teams_status::traits::SinkAction;
use teams_status::traits::SinkEvent;

#[test]
fn default_mqtt_settings() {
    let conf = create_mqtt_configuration();
    assert_eq!(conf.url(), "");
    assert_eq!(conf.port, 1883);
    assert_eq!(MQTT_PORT_DEFAULT, 1883);
    assert_eq!(conf.topic, "teams-status");
    assert_eq!(conf.username, "");
    assert_eq!(conf.password, "");
    assert_eq!(conf.mqtt_entities.muted, "muted");
    assert_eq!(conf.mqtt_entities.video, "video_on");
    assert_eq!(conf.mqtt_entities.hand_raised, "hand_raised");
    assert_eq!(conf.mqtt_entities.meeting, "in_meeting");
    assert_eq!(conf.mqtt_entities.recording, "recording_on");
    assert_eq!(conf.mqtt_entities.background_blurred, "background_blurred");
    assert_eq!(conf.mqtt_entities.sharing, "sharing");
    assert_eq!(conf.mqtt_entities.unread_messages, "unread_messages");
    assert_eq!(conf.mqtt_entities.name(Flag::InMeeting), "in_meeting");
}

#[test]
fn set_url_drops_the_scheme() {
    let mut conf = create_mqtt_configuration();
    conf.set_url("mqtt://broker.local".to_string());
    assert_eq!(conf.url(), "broker.local");
    conf.set_url("MQTT://Broker.Local".to_string());
    assert_eq!(conf.url(), "Broker.Local");
    conf.set_url("MqTt://x".to_string());
    assert_eq!(conf.url(), "x");
    conf.set_url("mqtt://".to_string());
    assert_eq!(conf.url(), "");
}

#[test]
fn set_url_keeps_other_addresses() {
    let mut conf = create_mqtt_configuration();
    conf.set_url("broker.local".to_string());
    assert_eq!(conf.url(), "broker.local");
    conf.set_url("tcp://broker".to_string());
    assert_eq!(conf.url(), "tcp://broker");
    conf.set_url("mqtt:/".to_string());
    assert_eq!(conf.url(), "mqtt:/");
    conf.set_url("xmqtt://host".to_string());
    assert_eq!(conf.url(), "xmqtt://host");
    conf.set_url("mqtt://\u{e9}t\u{e9}".to_string());
    assert_eq!(conf.url(), "\u{e9}t\u{e9}");
    assert!(!begins_with_mqtt_scheme(""));
    assert!(begins_with_mqtt_scheme("mqtt://h"));
}

#[test]
fn payload_holds_every_flag() {
    let mut states = TeamsStates::new();
    states.is_in_meeting = true;
    states.is_muted = true;
    let conf = create_mqtt_configuration();
    let text = payload(&states, &conf.mqtt_entities);
    assert_eq!(
        text,
        "{\"background_blurred\":\"off\",\"hand_raised\":\"off\",\"in_meeting\":\"on\",\
         \"muted\":\"on\",\"recording_on\":\"off\",\"sharing\":\"off\",\
         \"unread_messages\":\"off\",\"video_on\":\"off\"}"
    );
    let parsed: serde_json::Value = serde_json::from_str(&text).unwrap();
    assert_eq!(parsed.as_object().unwrap().len(), 8);
    assert_eq!(parsed["in_meeting"], serde_json::Value::String("on".to_string()));
}

#[test]
fn payload_with_a_shared_name_keeps_the_later_flag() {
    let mut states = TeamsStates::new();
    states.has_unread_messages = true;
    let mut conf = create_mqtt_configuration();
    conf.mqtt_entities.muted = "x".to_string();
    conf.mqtt_entities.unread_messages = "x".to_string();
    let parsed: serde_json::Value =
        serde_json::from_str(&payload(&states, &conf.mqtt_entities)).unwrap();
    assert_eq!(parsed.as_object().unwrap().len(), 7);
    assert_eq!(parsed["x"], serde_json::Value::String("on".to_string()));
}

#[test]
fn payload_escapes_names() {
    let states = TeamsStates::new();
    let mut conf = create_mqtt_configuration();
    conf.mqtt_entities.muted = "mu\"ted".to_string();
    let parsed: serde_json::Value =
        serde_json::from_str(&payload(&states, &conf.mqtt_entities)).unwrap();
    assert_eq!(parsed["mu\"ted"], serde_json::Value::String("off".to_string()));
}

fn publish(sink: &mut MqttApi, states: &mut TeamsStates, force_update: bool) -> (String, String) {
    match sink.notify_changed(states, force_update) {
        SinkAction::Publish(publish) => {
            assert_eq!(publish.qos, Qos::AtLeastOnce);
            assert!(publish.retain);
            (publish.topic, publish.payload)
        }
        _ => panic!("expected a publish"),
    }
}

#[test]
fn every_push_publishes_the_same_payload() {
    let mut conf = create_mqtt_configuration();
    conf.set_url("mqtt://broker".to_string());
    let mut sink = MqttApi::new(conf);
    let mut states = TeamsStates::new();
    states.is_sharing = true;
    let before = states;

    let first = publish(&mut sink, &mut states, false);
    assert!(matches!(
        sink.resume(&mut states, SinkEvent::Published(Ok(()))),
        SinkAction::Done(Ok(()))
    ));
    let second = publish(&mut sink, &mut states, false);
    assert!(matches!(
        sink.resume(&mut states, SinkEvent::Published(Ok(()))),
        SinkAction::Done(Ok(()))
    ));
    let forced = publish(&mut sink, &mut states, true);
    assert_eq!(first.0, "teams-status");
    assert_eq!(first, second);
    assert_eq!(first, forced);
    assert_eq!(states, before);

    states.prev_is_sharing = true;
    states.prev_is_muted = true;
    let other = publish(&mut sink, &mut states, false);
    assert_eq!(first, other);
}

#[test]
fn failed_publish_ends_the_push_with_its_error() {
    let mut sink = MqttApi::new(create_mqtt_configuration());
    let mut states = TeamsStates::new();
    publish(&mut sink, &mut states, false);
    let failure = Err(Error::new("queue closed".to_string()));
    match sink.resume(&mut states, SinkEvent::Published(failure)) {
        SinkAction::Done(Err(error)) => assert_eq!(error.to_string(), "queue closed"),
        _ => panic!("expected the push to fail"),
    }
    assert!(!sink.publishing);
}

#[test]
fn mqtt_report_out_of_turn_is_passed_over() {
    let mut sink = MqttApi::new(create_mqtt_configuration());
    let mut states = TeamsStates::new();
    assert!(matches!(sink.resume(&mut states, SinkEvent::Published(Ok(()))), SinkAction::Nothing));
    publish(&mut sink, &mut states, false);
    assert!(matches!(sink.resume(&mut states, SinkEvent::Connected), SinkAction::Nothing));
    assert!(matches!(
        sink.resume(&mut states, SinkEvent::Probed { ready: true }),
        SinkAction::Nothing
    ));
    assert!(sink.publishing);
}

#[test]
fn reconnect_asks_for_a_new_connection() {
    let mut conf = create_mqtt_configuration();
    conf.set_url("mqtt://broker.local".to_string());
    conf.port = 8883;
    conf.username = "user".to_string();
    conf.password = "pass".to_string();
    let mut sink = MqttApi::new(conf);
    match sink.reconnect() {
        SinkAction::Connect(connect) => {
            assert_eq!(connect.client_id, "teams-status");
            assert_eq!(connect.host, "broker.local");
            assert_eq!(connect.port, 8883);
            assert_eq!(connect.username, "user");
            assert_eq!(connect.password, "pass");
            assert_eq!(connect.keep_alive_secs, 5);
            assert_eq!(connect.capacity, 10);
        }
        _ => panic!("expected a connect"),
    }
    let first = sink.connection();
    assert_eq!(first.host, "broker.local");
}
