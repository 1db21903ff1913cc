//! The MQTT sink. Every push publishes the whole snapshot, retained, as one
//! JSON object; the broker keeps the last value, so nothing is held back.

use vstd::prelude::*;
use vstd::string::*;
use crate::mqtt::configuration::MqttConfiguration;
use crate::mqtt::configuration::MqttConfigurationView;
use crate::mqtt::configuration::MqttEntities;
use crate::mqtt::configuration::MqttEntitiesView;
use crate::render;
use crate::teams_ws::states::Flag;
use crate::teams_ws::states::TeamsStates;
use crate::traits::Listener;
use crate::traits::MqttConnect;
use crate::traits::MqttConnectView;
use crate::traits::MqttPublish;
use crate::traits::MqttPublishView;
use crate::traits::Qos;
use crate::traits::SinkAction;
use crate::traits::SinkActionView;
use crate::traits::SinkEvent;
use crate::utils::bool_to_str;
use crate::utils::on_off;

verus! {

/// The name under which the bridge connects to the broker.
pub const CLIENT_ID: &'static str = "teams-status";

/// Seconds between two keep-alive packets.
pub const KEEP_ALIVE_SECS: u64 = 5;

/// Requests that may wait in the client's queue.
pub const REQUEST_CAPACITY: usize = 10;

/// The members of the payload: for each flag its value under its name.
/// Where two flags share a name, the later one in this order stays.
pub open spec fn payload_members(states: TeamsStates, names: MqttEntitiesView) -> Map<
    Seq<char>,
    Seq<char>,
> {
    render::no_members().insert(names.muted, on_off(states.is_muted)).insert(
        names.video,
        on_off(states.is_video_on),
    ).insert(names.hand_raised, on_off(states.is_hand_raised)).insert(
        names.meeting,
        on_off(states.is_in_meeting),
    ).insert(names.recording, on_off(states.is_recording_on)).insert(
        names.background_blurred,
        on_off(states.is_background_blurred),
    ).insert(names.sharing, on_off(states.is_sharing)).insert(
        names.unread_messages,
        on_off(states.has_unread_messages),
    )
}

/// The payload of a publish: the JSON object of the payload's members.
pub open spec fn payload_text(states: TeamsStates, names: MqttEntitiesView) -> Seq<char> {
    render::object_text(payload_members(states, names))
}

/// The publish that tells the broker of a snapshot.
pub open spec fn publish_of(states: TeamsStates, conf: MqttConfigurationView) -> MqttPublishView {
    MqttPublishView {
        topic: conf.topic,
        qos: Qos::AtLeastOnce,
        retain: true,
        payload: payload_text(states, conf.mqtt_entities),
    }
}

/// How the bridge reaches the broker of a configuration.
pub open spec fn connection_of(conf: MqttConfigurationView) -> MqttConnectView {
    MqttConnectView {
        client_id: CLIENT_ID@,
        host: conf.url,
        port: conf.port,
        username: conf.username,
        password: conf.password,
        keep_alive_secs: KEEP_ALIVE_SECS,
        capacity: REQUEST_CAPACITY,
    }
}

fn put(object: &mut serde_json::Map<String, serde_json::Value>, name: &str, value: bool)
    requires
        render::only_text(*old(object)),
    ensures
        render::only_text(*final(object)),
        render::text_members(*final(object)) == render::text_members(*old(object)).insert(
            name@,
            on_off(value),
        ),
{
    render::insert_text(object, String::from_str(name), bool_to_str(value));
}

/// Writes the payload for a snapshot.
pub fn payload(states: &TeamsStates, names: &MqttEntities) -> (text: String)
    ensures
        text@ == payload_text(*states, names@),
{
    let mut object = render::new_object();
    put(&mut object, names.muted.as_str(), states.is_muted);
    put(&mut object, names.video.as_str(), states.is_video_on);
    put(&mut object, names.hand_raised.as_str(), states.is_hand_raised);
    put(&mut object, names.meeting.as_str(), states.is_in_meeting);
    put(&mut object, names.recording.as_str(), states.is_recording_on);
    put(&mut object, names.background_blurred.as_str(), states.is_background_blurred);
    put(&mut object, names.sharing.as_str(), states.is_sharing);
    put(&mut object, names.unread_messages.as_str(), states.has_unread_messages);
    render::write_object(object)
}

/// The MQTT sink.
pub struct MqttApi {
    pub mqtt_configuration: MqttConfiguration,
    /// Whether a publish is under way.
    pub publishing: bool,
}

impl MqttApi {
    /// A sink for the given settings.
    pub fn new(mqtt_configuration: MqttConfiguration) -> (sink: MqttApi)
        ensures
            sink.mqtt_configuration == mqtt_configuration,
            !sink.publishing,
    {
        MqttApi { mqtt_configuration, publishing: false }
    }

    /// How the bridge reaches the broker.
    pub fn connection(&self) -> (connect: MqttConnect)
        ensures
            connect@ == connection_of(self.mqtt_configuration@),
    {
        MqttConnect {
            client_id: String::from_str(CLIENT_ID),
            host: self.mqtt_configuration.url.clone(),
            port: self.mqtt_configuration.port,
            username: self.mqtt_configuration.username.clone(),
            password: self.mqtt_configuration.password.clone(),
            keep_alive_secs: KEEP_ALIVE_SECS,
            capacity: REQUEST_CAPACITY,
        }
    }
}

impl Listener for MqttApi {
    /// Publishes the snapshot, whichever flags changed and whether forced
    /// or not.
    fn notify_changed(&mut self, teams_states: &mut TeamsStates, force_update: bool) -> (action:
        SinkAction)
        ensures
            *final(teams_states) == *old(teams_states),
            final(self).mqtt_configuration == old(self).mqtt_configuration,
            final(self).publishing,
            action@ == SinkActionView::Publish(
                publish_of(*old(teams_states), old(self).mqtt_configuration@),
            ),
    {
        self.publishing = true;
        SinkAction::Publish(
            MqttPublish {
                topic: self.mqtt_configuration.topic.clone(),
                qos: Qos::AtLeastOnce,
                retain: true,
                payload: payload(teams_states, &self.mqtt_configuration.mqtt_entities),
            },
        )
    }

    /// Ends the publish under way with the result that the broker's client
    /// reported; any other event is passed over.
    fn resume(&mut self, teams_states: &mut TeamsStates, event: SinkEvent) -> (action: SinkAction)
        ensures
            *final(teams_states) == *old(teams_states),
            final(self).mqtt_configuration == old(self).mqtt_configuration,
            final(self).publishing == (old(self).publishing && !(event is Published)),
            action@ == (match event {
                SinkEvent::Published(Ok(_)) if old(self).publishing => SinkActionView::Done(Ok(())),
                SinkEvent::Published(Err(error)) if old(self).publishing => SinkActionView::Done(
                    Err(error@),
                ),
                _ => SinkActionView::Nothing,
            }),
    {
        match event {
            SinkEvent::Published(result) => {
                if self.publishing {
                    self.publishing = false;
                    match result {
                        Ok(_) => SinkAction::Done(Ok(())),
                        Err(error) => SinkAction::Done(Err(error)),
                    }
                } else {
                    SinkAction::Nothing
                }
            },
            _ => SinkAction::Nothing,
        }
    }

    /// Asks for a new connection to the broker.
    fn reconnect(&mut self) -> (action: SinkAction)
        ensures
            final(self).mqtt_configuration == old(self).mqtt_configuration,
            !final(self).publishing,
            action@ == SinkActionView::Connect(connection_of(old(self).mqtt_configuration@)),
    {
        self.publishing = false;
        SinkAction::Connect(self.connection())
    }
}

/// The payload tells the current values alone: two snapshots that agree on
/// every flag's current value give the same publish, whatever was last
/// pushed. So a second push of the same snapshot repeats the first.
pub proof fn publish_is_repeatable(first: TeamsStates, second: TeamsStates, conf: MqttConfigurationView)
    requires
        forall|flag: Flag| first.current(flag) == second.current(flag),
    ensures
        publish_of(first, conf) == publish_of(second, conf),
{
    assert(first.current(Flag::Muted) == second.current(Flag::Muted));
    assert(first.current(Flag::VideoOn) == second.current(Flag::VideoOn));
    assert(first.current(Flag::HandRaised) == second.current(Flag::HandRaised));
    assert(first.current(Flag::InMeeting) == second.current(Flag::InMeeting));
    assert(first.current(Flag::RecordingOn) == second.current(Flag::RecordingOn));
    assert(first.current(Flag::BackgroundBlurred) == second.current(Flag::BackgroundBlurred));
    assert(first.current(Flag::Sharing) == second.current(Flag::Sharing));
    assert(first.current(Flag::UnreadMessages) == second.current(Flag::UnreadMessages));
}

} // verus!
