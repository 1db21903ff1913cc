//! The settings of the MQTT sink.

use vstd::prelude::*;
use vstd::string::*;
use crate::teams_ws::states::Flag;
use crate::utils::skip_chars;

verus! {

pub const MQTT: &'static str = "MQTT";

pub const MQTT_URL: &'static str = "URL";

pub const MQTT_PORT: &'static str = "Port";

pub const MQTT_TOPIC: &'static str = "Topic";

pub const MQTT_USERNAME: &'static str = "Username";

pub const MQTT_PASSWORD: &'static str = "Password";

pub const MQTT_ENTITIES: &'static str = "MQTT Entities";

pub const MQTT_MUTED: &'static str = "Muted";

pub const MQTT_VIDEO: &'static str = "Video";

pub const MQTT_HAND_RAISED: &'static str = "Hand Raised";

pub const MQTT_MEETING: &'static str = "Meeting";

pub const MQTT_RECORDING: &'static str = "Recording";

pub const MQTT_BACKGROUND_BLURRED: &'static str = "Background Blurred";

pub const MQTT_SHARING: &'static str = "Sharing";

pub const MQTT_UNREAD_MESSAGES: &'static str = "Unread Messages";

pub const MQTT_PORT_DEFAULT: u16 = 1883;

/// The name under which each flag goes into the payload.
pub struct MqttEntities {
    pub muted: String,
    pub video: String,
    pub hand_raised: String,
    pub meeting: String,
    pub recording: String,
    pub background_blurred: String,
    pub sharing: String,
    pub unread_messages: String,
}

/// `MqttEntities` with its text as sequences of characters.
pub struct MqttEntitiesView {
    pub muted: Seq<char>,
    pub video: Seq<char>,
    pub hand_raised: Seq<char>,
    pub meeting: Seq<char>,
    pub recording: Seq<char>,
    pub background_blurred: Seq<char>,
    pub sharing: Seq<char>,
    pub unread_messages: Seq<char>,
}

impl MqttEntitiesView {
    /// The payload name of a flag.
    pub open spec fn name(self, flag: Flag) -> Seq<char> {
        match flag {
            Flag::Muted => self.muted,
            Flag::VideoOn => self.video,
            Flag::HandRaised => self.hand_raised,
            Flag::InMeeting => self.meeting,
            Flag::RecordingOn => self.recording,
            Flag::BackgroundBlurred => self.background_blurred,
            Flag::Sharing => self.sharing,
            Flag::UnreadMessages => self.unread_messages,
        }
    }
}

impl MqttEntitiesView {
    /// The names with the payload name of one flag replaced.
    pub open spec fn with_name(self, flag: Flag, name: Seq<char>) -> MqttEntitiesView {
        match flag {
            Flag::Muted => MqttEntitiesView { muted: name, ..self },
            Flag::VideoOn => MqttEntitiesView { video: name, ..self },
            Flag::HandRaised => MqttEntitiesView { hand_raised: name, ..self },
            Flag::InMeeting => MqttEntitiesView { meeting: name, ..self },
            Flag::RecordingOn => MqttEntitiesView { recording: name, ..self },
            Flag::BackgroundBlurred => MqttEntitiesView { background_blurred: name, ..self },
            Flag::Sharing => MqttEntitiesView { sharing: name, ..self },
            Flag::UnreadMessages => MqttEntitiesView { unread_messages: name, ..self },
        }
    }
}

impl View for MqttEntities {
    type V = MqttEntitiesView;

    open spec fn view(&self) -> MqttEntitiesView {
        MqttEntitiesView {
            muted: self.muted@,
            video: self.video@,
            hand_raised: self.hand_raised@,
            meeting: self.meeting@,
            recording: self.recording@,
            background_blurred: self.background_blurred@,
            sharing: self.sharing@,
            unread_messages: self.unread_messages@,
        }
    }
}

impl MqttEntities {
    /// Replaces the payload name of a flag.
    pub fn set_name(&mut self, flag: Flag, name: String)
        ensures
            final(self)@ == old(self)@.with_name(flag, name@),
    {
        match flag {
            Flag::Muted => { self.muted = name; },
            Flag::VideoOn => { self.video = name; },
            Flag::HandRaised => { self.hand_raised = name; },
            Flag::InMeeting => { self.meeting = name; },
            Flag::RecordingOn => { self.recording = name; },
            Flag::BackgroundBlurred => { self.background_blurred = name; },
            Flag::Sharing => { self.sharing = name; },
            Flag::UnreadMessages => { self.unread_messages = name; },
        }
    }

    /// The payload name of a flag.
    pub fn name(&self, flag: Flag) -> (name: &str)
        ensures
            name@ == self@.name(flag),
    {
        match flag {
            Flag::Muted => self.muted.as_str(),
            Flag::VideoOn => self.video.as_str(),
            Flag::HandRaised => self.hand_raised.as_str(),
            Flag::InMeeting => self.meeting.as_str(),
            Flag::RecordingOn => self.recording.as_str(),
            Flag::BackgroundBlurred => self.background_blurred.as_str(),
            Flag::Sharing => self.sharing.as_str(),
            Flag::UnreadMessages => self.unread_messages.as_str(),
        }
    }
}

/// The settings of the MQTT sink. `set_url` stores the broker's host
/// without a scheme.
pub struct MqttConfiguration {
    pub url: String,
    pub port: u16,
    pub topic: String,
    pub username: String,
    pub password: String,
    pub mqtt_entities: MqttEntities,
}

/// `MqttConfiguration` with its text as sequences of characters.
pub struct MqttConfigurationView {
    pub url: Seq<char>,
    pub port: u16,
    pub topic: Seq<char>,
    pub username: Seq<char>,
    pub password: Seq<char>,
    pub mqtt_entities: MqttEntitiesView,
}

impl View for MqttConfiguration {
    type V = MqttConfigurationView;

    open spec fn view(&self) -> MqttConfigurationView {
        MqttConfigurationView {
            url: self.url@,
            port: self.port,
            topic: self.topic@,
            username: self.username@,
            password: self.password@,
            mqtt_entities: self.mqtt_entities@,
        }
    }
}

/// Whether a character is the given lower-case letter or its capital.
pub open spec fn is_letter(character: char, lower: char, upper: char) -> bool {
    character == lower || character == upper
}

/// Whether an address begins with `mqtt://`, in any mix of cases.
pub open spec fn has_mqtt_scheme(url: Seq<char>) -> bool {
    &&& url.len() >= 7
    &&& is_letter(url[0], 'm', 'M')
    &&& is_letter(url[1], 'q', 'Q')
    &&& is_letter(url[2], 't', 'T')
    &&& is_letter(url[3], 't', 'T')
    &&& url[4] == ':'
    &&& url[5] == '/'
    &&& url[6] == '/'
}

/// The host of a broker address: the address without its `mqtt://`.
pub open spec fn broker_host(url: Seq<char>) -> Seq<char> {
    if has_mqtt_scheme(url) {
        url.skip(7)
    } else {
        url
    }
}

fn is_either(character: char, lower: char, upper: char) -> (matched: bool)
    ensures
        matched == is_letter(character, lower, upper),
{
    character == lower || character == upper
}

/// Whether an address begins with `mqtt://`, in any mix of cases.
pub fn begins_with_mqtt_scheme(url: &str) -> (found: bool)
    ensures
        found == has_mqtt_scheme(url@),
{
    if url.unicode_len() < 7 {
        return false;
    }
    is_either(url.get_char(0), 'm', 'M') && is_either(url.get_char(1), 'q', 'Q') && is_either(
        url.get_char(2),
        't',
        'T',
    ) && is_either(url.get_char(3), 't', 'T') && url.get_char(4) == ':' && url.get_char(5) == '/'
        && url.get_char(6) == '/'
}

impl MqttConfiguration {
    /// The broker's host.
    pub fn url(&self) -> (url: &str)
        ensures
            url@ == self@.url,
    {
        self.url.as_str()
    }

    /// Sets the broker's host from an address, dropping a leading
    /// `mqtt://`.
    pub fn set_url(&mut self, url: String)
        ensures
            final(self)@ == (MqttConfigurationView { url: broker_host(url@), ..old(self)@ }),
    {
        if begins_with_mqtt_scheme(url.as_str()) {
            self.url = skip_chars(url.as_str(), 7);
        } else {
            self.url = url;
        }
    }
}

/// The settings of a fresh installation: no broker, the standard port.
pub open spec fn default_mqtt_configuration() -> MqttConfigurationView {
    MqttConfigurationView {
        url: ""@,
        port: 1883,
        topic: "teams-status"@,
        username: ""@,
        password: ""@,
        mqtt_entities: MqttEntitiesView {
            muted: "muted"@,
            video: "video_on"@,
            hand_raised: "hand_raised"@,
            meeting: "in_meeting"@,
            recording: "recording_on"@,
            background_blurred: "background_blurred"@,
            sharing: "sharing"@,
            unread_messages: "unread_messages"@,
        },
    }
}

/// The settings of a fresh installation.
pub fn create_mqtt_configuration() -> (conf: MqttConfiguration)
    ensures
        conf@ == default_mqtt_configuration(),
{
    let mqtt_entities = MqttEntities {
        muted: String::from_str("muted"),
        video: String::from_str("video_on"),
        hand_raised: String::from_str("hand_raised"),
        meeting: String::from_str("in_meeting"),
        recording: String::from_str("recording_on"),
        background_blurred: String::from_str("background_blurred"),
        sharing: String::from_str("sharing"),
        unread_messages: String::from_str("unread_messages"),
    };
    MqttConfiguration {
        url: String::from_str(""),
        port: 1883,
        topic: String::from_str("teams-status"),
        username: String::from_str(""),
        password: String::from_str(""),
        mqtt_entities,
    }
}

} // verus!
