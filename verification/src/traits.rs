//! What a sink and its caller say to each other.
//!
//! A sink decides and its caller does the work: the sink names the next
//! request to the downstream system, the caller makes it and reports back.

use vstd::prelude::*;
use crate::error::Error;
use crate::home_assistant::configuration::Attributes;
use crate::home_assistant::configuration::attributes_view;
use crate::teams_ws::states::TeamsStates;

verus! {

/// A state-set request for one entity.
pub struct StateRequest {
    pub entity_id: String,
    /// `"on"` or `"off"`.
    pub state: String,
    /// The attributes to send, in order; a later one of the same name
    /// replaces an earlier one.
    pub attributes: Vec<(String, String)>,
}

/// `StateRequest` with its text as sequences of characters.
pub struct StateRequestView {
    pub entity_id: Seq<char>,
    pub state: Seq<char>,
    pub attributes: Attributes,
}

impl View for StateRequest {
    type V = StateRequestView;

    open spec fn view(&self) -> StateRequestView {
        StateRequestView {
            entity_id: self.entity_id@,
            state: self.state@,
            attributes: attributes_view(self.attributes@),
        }
    }
}

/// The delivery guarantee of an MQTT publish.
#[derive(Clone, Copy, Debug, PartialEq, Eq, Structural)]
pub enum Qos {
    AtMostOnce,
    AtLeastOnce,
    ExactlyOnce,
}

/// One MQTT publish.
pub struct MqttPublish {
    pub topic: String,
    pub qos: Qos,
    pub retain: bool,
    pub payload: String,
}

/// `MqttPublish` with its text as sequences of characters.
pub struct MqttPublishView {
    pub topic: Seq<char>,
    pub qos: Qos,
    pub retain: bool,
    pub payload: Seq<char>,
}

impl View for MqttPublish {
    type V = MqttPublishView;

    open spec fn view(&self) -> MqttPublishView {
        MqttPublishView {
            topic: self.topic@,
            qos: self.qos,
            retain: self.retain,
            payload: self.payload@,
        }
    }
}

/// How to reach the broker.
pub struct MqttConnect {
    pub client_id: String,
    pub host: String,
    pub port: u16,
    pub username: String,
    pub password: String,
    pub keep_alive_secs: u64,
    /// Requests that may wait in the client's queue.
    pub capacity: usize,
}

/// `MqttConnect` with its text as sequences of characters.
pub struct MqttConnectView {
    pub client_id: Seq<char>,
    pub host: Seq<char>,
    pub port: u16,
    pub username: Seq<char>,
    pub password: Seq<char>,
    pub keep_alive_secs: u64,
    pub capacity: usize,
}

impl View for MqttConnect {
    type V = MqttConnectView;

    open spec fn view(&self) -> MqttConnectView {
        MqttConnectView {
            client_id: self.client_id@,
            host: self.host@,
            port: self.port,
            username: self.username@,
            password: self.password@,
            keep_alive_secs: self.keep_alive_secs,
            capacity: self.capacity,
        }
    }
}

/// What the caller of a sink is to do next.
pub enum SinkAction {
    /// Ask Home Assistant whether its API is running, with this client;
    /// the requests that follow go through the same client.
    Probe(home_assistant_rest::Client),
    /// Fetch the state of an entity, for its attributes.
    FetchAttributes { entity_id: String },
    /// Set the state of an entity.
    SetState(StateRequest),
    /// Publish to the broker.
    Publish(MqttPublish),
    /// Drop the connection to the broker, if there is one, and make a new
    /// one.
    Connect(MqttConnect),
    /// The sink has done what it was asked, with this result.
    Done(Result<(), Error>),
    /// The event was not the one awaited; nothing is to be done for it.
    Nothing,
}

/// `SinkAction` with its text as sequences of characters.
pub enum SinkActionView {
    Probe(home_assistant_rest::Client),
    FetchAttributes { entity_id: Seq<char> },
    SetState(StateRequestView),
    Publish(MqttPublishView),
    Connect(MqttConnectView),
    Done(Result<(), Seq<char>>),
    Nothing,
}

impl View for SinkAction {
    type V = SinkActionView;

    open spec fn view(&self) -> SinkActionView {
        match *self {
            SinkAction::Probe(client) => SinkActionView::Probe(client),
            SinkAction::FetchAttributes { entity_id } => SinkActionView::FetchAttributes {
                entity_id: entity_id@,
            },
            SinkAction::SetState(request) => SinkActionView::SetState(request@),
            SinkAction::Publish(publish) => SinkActionView::Publish(publish@),
            SinkAction::Connect(connect) => SinkActionView::Connect(connect@),
            SinkAction::Done(Ok(())) => SinkActionView::Done(Ok(())),
            SinkAction::Done(Err(error)) => SinkActionView::Done(Err(error@)),
            SinkAction::Nothing => SinkActionView::Nothing,
        }
    }
}

/// What the caller of a sink reports back.
pub enum SinkEvent {
    /// The probe came back; `ready` says whether the API is running.
    Probed { ready: bool },
    /// The state of an entity came back with these attributes, or could
    /// not be fetched.
    Attributes(Option<Vec<(String, serde_json::Value)>>),
    /// The state-set request returned; `accepted` says whether it went
    /// through.
    StateSet { accepted: bool },
    /// The publish returned.
    Published(Result<(), Error>),
    /// The connection to the broker has been renewed.
    Connected,
}

/// A downstream system that is told of the snapshot.
pub trait Listener {
    /// Begins a push of the snapshot; `force_update` asks for every flag,
    /// changed or not.
    fn notify_changed(&mut self, teams_states: &mut TeamsStates, force_update: bool) -> SinkAction;

    /// Takes the report of what was done and names what is to be done
    /// next.
    fn resume(&mut self, teams_states: &mut TeamsStates, event: SinkEvent) -> SinkAction;

    /// Renews the connection to the downstream system.
    fn reconnect(&mut self) -> SinkAction;
}

} // verus!
