//! The bridge as a whole: one upstream session and the sink that the
//! settings choose for it.

use vstd::prelude::*;
use crate::configuration::Configuration;
use crate::home_assistant::api::ha_next;
use crate::home_assistant::api::in_phase;
use crate::home_assistant::api::push_begun;
use crate::home_assistant::api::HaApi;
use crate::home_assistant::api::HaPhase;
use crate::mqtt::api::connection_of;
use crate::mqtt::api::publish_of;
use crate::mqtt::api::MqttApi;
use crate::teams_ws::api::listen_url;
use crate::teams_ws::api::TeamsAPI;
use crate::teams_ws::states::TeamsStates;
use crate::traits::Listener;
use crate::traits::SinkAction;
use crate::traits::SinkActionView;
use crate::traits::SinkEvent;

verus! {

/// The sink of a bridge.
pub enum Sink {
    HomeAssistant(HaApi),
    Mqtt(MqttApi),
}

/// Whether two snapshots are the same.
pub open spec fn unchanged(before: TeamsStates, after: TeamsStates) -> bool {
    before == after
}

/// A session and its sink.
pub struct Bridge {
    pub teams_api: TeamsAPI,
    pub listener: Sink,
}

/// Sets a bridge up from its settings. The sink is the MQTT broker where
/// the settings name one, else Home Assistant.
pub fn run_apis(conf: Configuration) -> (bridge: Bridge)
    ensures
        bridge.teams_api.url@ == listen_url(conf@.teams),
        match bridge.listener {
            Sink::HomeAssistant(sink) => conf@.mqtt.url.len() == 0 && sink.ha_configuration
                == conf.ha && !sink.queried_attributes && !sink.force_update && sink.phase
                == HaPhase::Idle,
            Sink::Mqtt(sink) => conf@.mqtt.url.len() > 0 && sink.mqtt_configuration == conf.mqtt
                && !sink.publishing,
        },
{
    let teams_api = TeamsAPI::new(&conf.teams);
    let listener = if conf.mqtt.url().is_empty() {
        Sink::HomeAssistant(HaApi::new(conf.ha))
    } else {
        Sink::Mqtt(MqttApi::new(conf.mqtt))
    };
    Bridge { teams_api, listener }
}

impl Listener for Sink {
    /// Begins a push of the snapshot to the sink.
    fn notify_changed(&mut self, teams_states: &mut TeamsStates, force_update: bool) -> (action:
        SinkAction)
        ensures
            *final(teams_states) == *old(teams_states),
            match *old(self) {
                Sink::HomeAssistant(before) => *final(self) matches Sink::HomeAssistant(after) && (
                    after@,
                    action@,
                ) == push_begun(before@, *old(teams_states), force_update),
                Sink::Mqtt(before) => *final(self) matches Sink::Mqtt(after)
                    && after.mqtt_configuration == before.mqtt_configuration && after.publishing
                    && action@ == SinkActionView::Publish(
                    publish_of(*old(teams_states), before.mqtt_configuration@),
                ),
            },
    {
        match self {
            Sink::HomeAssistant(sink) => sink.notify_changed(teams_states, force_update),
            Sink::Mqtt(sink) => sink.notify_changed(teams_states, force_update),
        }
    }

    /// Hands the report of a request to the sink.
    fn resume(&mut self, teams_states: &mut TeamsStates, event: SinkEvent) -> (action: SinkAction)
        ensures
            match *old(self) {
                Sink::HomeAssistant(before) => *final(self) matches Sink::HomeAssistant(after) && (
                    after@,
                    *final(teams_states),
                    action@,
                ) == ha_next(before@, *old(teams_states), event),
                Sink::Mqtt(before) => *final(self) matches Sink::Mqtt(after)
                    && after.mqtt_configuration == before.mqtt_configuration && unchanged(*old(teams_states), *final(teams_states)),
            },
    {
        match self {
            Sink::HomeAssistant(sink) => sink.resume(teams_states, event),
            Sink::Mqtt(sink) => sink.resume(teams_states, event),
        }
    }

    /// Has the sink renew its connection.
    fn reconnect(&mut self) -> (action: SinkAction)
        ensures
            match *old(self) {
                Sink::HomeAssistant(before) => *final(self) matches Sink::HomeAssistant(after)
                    && after@ == in_phase(before@, HaPhase::Idle) && action@
                    == SinkActionView::Done(Ok(())),
                Sink::Mqtt(before) => *final(self) matches Sink::Mqtt(after)
                    && after.mqtt_configuration == before.mqtt_configuration && action@
                    == SinkActionView::Connect(connection_of(before.mqtt_configuration@)),
            },
    {
        match self {
            Sink::HomeAssistant(sink) => sink.reconnect(),
            Sink::Mqtt(sink) => sink.reconnect(),
        }
    }
}

} // verus!
