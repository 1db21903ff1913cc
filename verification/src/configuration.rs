//! The bridge's settings: their defaults, how a settings file changes
//! them, and the file that stores them.

use vstd::prelude::*;
use vstd::string::*;
use crate::error::Error;
use crate::home_assistant::configuration::create_ha_configuration;
use crate::home_assistant::configuration::default_ha_configuration;
use crate::home_assistant::configuration::HaConfiguration;
use crate::home_assistant::configuration::HaConfigurationView;
use crate::home_assistant::configuration::HaEntitiesView;
use crate::home_assistant::configuration::HaEntity;
use crate::home_assistant::configuration::HaEntityView;
use crate::home_assistant::configuration::HaIconsView;
use crate::home_assistant::configuration::HA_BACKGROUND_BLURRED;
use crate::home_assistant::configuration::HA_FRIENDLY_NAME;
use crate::home_assistant::configuration::HA_HAND_RAISED;
use crate::home_assistant::configuration::HA_ICON_OFF;
use crate::home_assistant::configuration::HA_ICON_ON;
use crate::home_assistant::configuration::HA_ID;
use crate::home_assistant::configuration::HA_IN_A_MEETING;
use crate::home_assistant::configuration::HA_LONG_LIVE_TOKEN;
use crate::home_assistant::configuration::HA_MUTED;
use crate::home_assistant::configuration::HA_RECORDING;
use crate::home_assistant::configuration::HA_SHARING;
use crate::home_assistant::configuration::HA_UNREAD_MESSAGES;
use crate::home_assistant::configuration::HA_URL;
use crate::home_assistant::configuration::HA_VIDEO_ON;
use crate::home_assistant::configuration::HOME_ASSISTANT;
use crate::mqtt::configuration::broker_host;
use crate::mqtt::configuration::create_mqtt_configuration;
use crate::mqtt::configuration::default_mqtt_configuration;
use crate::mqtt::configuration::MqttConfiguration;
use crate::mqtt::configuration::MqttConfigurationView;
use crate::mqtt::configuration::MQTT;
use crate::mqtt::configuration::MQTT_BACKGROUND_BLURRED;
use crate::mqtt::configuration::MQTT_ENTITIES;
use crate::mqtt::configuration::MQTT_HAND_RAISED;
use crate::mqtt::configuration::MQTT_MEETING;
use crate::mqtt::configuration::MQTT_MUTED;
use crate::mqtt::configuration::MQTT_PASSWORD;
use crate::mqtt::configuration::MQTT_PORT;
use crate::mqtt::configuration::MQTT_PORT_DEFAULT;
use crate::mqtt::configuration::MQTT_RECORDING;
use crate::mqtt::configuration::MQTT_SHARING;
use crate::mqtt::configuration::MQTT_TOPIC;
use crate::mqtt::configuration::MQTT_UNREAD_MESSAGES;
use crate::mqtt::configuration::MQTT_URL;
use crate::mqtt::configuration::MQTT_USERNAME;
use crate::mqtt::configuration::MQTT_VIDEO;
use crate::settings;
use crate::settings::Entry;
use crate::teams_ws::configuration::create_teams_configuration;
use crate::teams_ws::configuration::default_teams_configuration;
use crate::teams_ws::configuration::TeamsConfiguration;
use crate::teams_ws::configuration::TeamsConfigurationView;
use crate::teams_ws::configuration::TEAMS;
use crate::teams_ws::configuration::TEAMS_API_TOKEN;
use crate::teams_ws::configuration::TEAMS_URL;
use crate::teams_ws::states::Flag;
use crate::utils::decoded;
use crate::utils::decrypt_if_needed;
use crate::utils::same_text;

verus! {

/// Section of the settings that hold for the whole bridge.
pub const GENERAL: &'static str = "General";

/// Key of the version of the settings file.
pub const GEN_CONF_VERSION: &'static str = "Configuration Version";

/// The version that the bridge writes.
pub const GEN_CONF_VERSION_CURRENT: u32 = 1;

/// A file of a version below this one is copied before it is rewritten.
pub const GEN_CONF_VERSION_CUTOFF: u32 = 1;

/// The settings file.
pub const INI_FILE_NAME: &'static str = "conf.ini";

/// The message of the error that reports a stored secret which cannot be
/// decrypted.
pub const SECRET_UNREADABLE: &'static str = "A stored secret cannot be decrypted";

/// All settings of the bridge.
pub struct Configuration {
    pub ha: HaConfiguration,
    pub teams: TeamsConfiguration,
    pub mqtt: MqttConfiguration,
    /// The version of the settings file they were read from, zero where
    /// the file gave none.
    pub version: u32,
}

/// `Configuration` with its text as sequences of characters.
pub struct ConfigurationView {
    pub ha: HaConfigurationView,
    pub teams: TeamsConfigurationView,
    pub mqtt: MqttConfigurationView,
    pub version: u32,
}

impl View for Configuration {
    type V = ConfigurationView;

    open spec fn view(&self) -> ConfigurationView {
        ConfigurationView {
            ha: self.ha@,
            teams: self.teams@,
            mqtt: self.mqtt@,
            version: self.version,
        }
    }
}

/// The settings of a fresh installation.
pub open spec fn default_configuration() -> ConfigurationView {
    ConfigurationView {
        ha: default_ha_configuration(),
        teams: default_teams_configuration(),
        mqtt: default_mqtt_configuration(),
        version: 0,
    }
}

/// The settings of a fresh installation.
pub fn create_configuration() -> (conf: Configuration)
    ensures
        conf@ == default_configuration(),
{
    Configuration {
        ha: create_ha_configuration(),
        teams: create_teams_configuration(),
        mqtt: create_mqtt_configuration(),
        version: 0,
    }
}

/// An entity after one of its settings has been read. A key that names no
/// setting of an entity changes nothing.
pub open spec fn entity_loaded(entity: HaEntityView, name: Seq<char>, value: Seq<char>) -> HaEntityView {
    if name == HA_ID@ {
        HaEntityView { id: value, ..entity }
    } else if name == HA_FRIENDLY_NAME@ {
        HaEntityView { friendly_name: value, ..entity }
    } else if name == HA_ICON_ON@ {
        HaEntityView { icons: HaIconsView { on: value, ..entity.icons }, ..entity }
    } else if name == HA_ICON_OFF@ {
        HaEntityView { icons: HaIconsView { off: value, ..entity.icons }, ..entity }
    } else {
        entity
    }
}

/// Reads one setting of an entity.
pub fn load_entity(ha_entity: &mut HaEntity, config_name: &str, config_value: String)
    ensures
        final(ha_entity)@ == entity_loaded(old(ha_entity)@, config_name@, config_value@),
{
    if same_text(config_name, HA_ID) {
        ha_entity.id = config_value;
    } else if same_text(config_name, HA_FRIENDLY_NAME) {
        ha_entity.friendly_name = config_value;
    } else if same_text(config_name, HA_ICON_ON) {
        ha_entity.icons.on = config_value;
    } else if same_text(config_name, HA_ICON_OFF) {
        ha_entity.icons.off = config_value;
    }
}

/// The flag whose entity a section of the settings file describes.
pub open spec fn entity_section(section: Seq<char>) -> Option<Flag> {
    if section == HA_MUTED@ {
        Some(Flag::Muted)
    } else if section == HA_VIDEO_ON@ {
        Some(Flag::VideoOn)
    } else if section == HA_HAND_RAISED@ {
        Some(Flag::HandRaised)
    } else if section == HA_IN_A_MEETING@ {
        Some(Flag::InMeeting)
    } else if section == HA_RECORDING@ {
        Some(Flag::RecordingOn)
    } else if section == HA_BACKGROUND_BLURRED@ {
        Some(Flag::BackgroundBlurred)
    } else if section == HA_SHARING@ {
        Some(Flag::Sharing)
    } else if section == HA_UNREAD_MESSAGES@ {
        Some(Flag::UnreadMessages)
    } else {
        None
    }
}

/// The flag whose entity a section of the settings file describes.
pub fn section_flag(section: &str) -> (flag: Option<Flag>)
    ensures
        flag == entity_section(section@),
{
    if same_text(section, HA_MUTED) {
        Some(Flag::Muted)
    } else if same_text(section, HA_VIDEO_ON) {
        Some(Flag::VideoOn)
    } else if same_text(section, HA_HAND_RAISED) {
        Some(Flag::HandRaised)
    } else if same_text(section, HA_IN_A_MEETING) {
        Some(Flag::InMeeting)
    } else if same_text(section, HA_RECORDING) {
        Some(Flag::RecordingOn)
    } else if same_text(section, HA_BACKGROUND_BLURRED) {
        Some(Flag::BackgroundBlurred)
    } else if same_text(section, HA_SHARING) {
        Some(Flag::Sharing)
    } else if same_text(section, HA_UNREAD_MESSAGES) {
        Some(Flag::UnreadMessages)
    } else {
        None
    }
}

/// The section of the settings file that describes the entity of a flag.
pub open spec fn section_of(flag: Flag) -> Seq<char> {
    match flag {
        Flag::Muted => HA_MUTED@,
        Flag::VideoOn => HA_VIDEO_ON@,
        Flag::HandRaised => HA_HAND_RAISED@,
        Flag::InMeeting => HA_IN_A_MEETING@,
        Flag::RecordingOn => HA_RECORDING@,
        Flag::BackgroundBlurred => HA_BACKGROUND_BLURRED@,
        Flag::Sharing => HA_SHARING@,
        Flag::UnreadMessages => HA_UNREAD_MESSAGES@,
    }
}

/// The section of the settings file that describes the entity of a flag.
pub fn flag_section(flag: Flag) -> (section: &'static str)
    ensures
        section@ == section_of(flag),
{
    match flag {
        Flag::Muted => HA_MUTED,
        Flag::VideoOn => HA_VIDEO_ON,
        Flag::HandRaised => HA_HAND_RAISED,
        Flag::InMeeting => HA_IN_A_MEETING,
        Flag::RecordingOn => HA_RECORDING,
        Flag::BackgroundBlurred => HA_BACKGROUND_BLURRED,
        Flag::Sharing => HA_SHARING,
        Flag::UnreadMessages => HA_UNREAD_MESSAGES,
    }
}

/// The flag whose payload name a key of the MQTT entities names.
pub open spec fn name_key(key: Seq<char>) -> Option<Flag> {
    if key == MQTT_MUTED@ {
        Some(Flag::Muted)
    } else if key == MQTT_VIDEO@ {
        Some(Flag::VideoOn)
    } else if key == MQTT_HAND_RAISED@ {
        Some(Flag::HandRaised)
    } else if key == MQTT_MEETING@ {
        Some(Flag::InMeeting)
    } else if key == MQTT_RECORDING@ {
        Some(Flag::RecordingOn)
    } else if key == MQTT_BACKGROUND_BLURRED@ {
        Some(Flag::BackgroundBlurred)
    } else if key == MQTT_SHARING@ {
        Some(Flag::Sharing)
    } else if key == MQTT_UNREAD_MESSAGES@ {
        Some(Flag::UnreadMessages)
    } else {
        None
    }
}

/// The flag whose payload name a key of the MQTT entities names.
pub fn key_flag(key: &str) -> (flag: Option<Flag>)
    ensures
        flag == name_key(key@),
{
    if same_text(key, MQTT_MUTED) {
        Some(Flag::Muted)
    } else if same_text(key, MQTT_VIDEO) {
        Some(Flag::VideoOn)
    } else if same_text(key, MQTT_HAND_RAISED) {
        Some(Flag::HandRaised)
    } else if same_text(key, MQTT_MEETING) {
        Some(Flag::InMeeting)
    } else if same_text(key, MQTT_RECORDING) {
        Some(Flag::RecordingOn)
    } else if same_text(key, MQTT_BACKGROUND_BLURRED) {
        Some(Flag::BackgroundBlurred)
    } else if same_text(key, MQTT_SHARING) {
        Some(Flag::Sharing)
    } else if same_text(key, MQTT_UNREAD_MESSAGES) {
        Some(Flag::UnreadMessages)
    } else {
        None
    }
}

/// The Home Assistant settings after one setting of their own section has
/// been read; `None` where the token cannot be decrypted.
pub open spec fn ha_loaded(ha: HaConfigurationView, crypto_key: Seq<char>, key: Seq<char>, value: Seq<char>) -> Option<
    HaConfigurationView,
> {
    if key == HA_LONG_LIVE_TOKEN@ {
        match decoded(crypto_key, value) {
            Some(token) => Some(HaConfigurationView { long_live_token: token, ..ha }),
            None => None,
        }
    } else if key == HA_URL@ {
        Some(HaConfigurationView { url: value, ..ha })
    } else {
        Some(ha)
    }
}

/// The upstream settings after one setting has been read; `None` where the
/// token cannot be decrypted.
pub open spec fn teams_loaded(
    teams: TeamsConfigurationView,
    crypto_key: Seq<char>,
    key: Seq<char>,
    value: Seq<char>,
) -> Option<TeamsConfigurationView> {
    if key == TEAMS_URL@ {
        Some(TeamsConfigurationView { url: value, ..teams })
    } else if key == TEAMS_API_TOKEN@ {
        match decoded(crypto_key, value) {
            Some(token) => Some(TeamsConfigurationView { api_token: token, ..teams }),
            None => None,
        }
    } else {
        Some(teams)
    }
}

/// The port that a text gives: its number, or the standard port where it is
/// none.
pub open spec fn port_of(value: Seq<char>) -> u16 {
    match settings::short_number(value) {
        Some(port) => port,
        None => MQTT_PORT_DEFAULT,
    }
}

/// The MQTT settings after one setting of their own section has been read;
/// `None` where the password cannot be decrypted.
pub open spec fn mqtt_loaded(
    mqtt: MqttConfigurationView,
    crypto_key: Seq<char>,
    key: Seq<char>,
    value: Seq<char>,
) -> Option<MqttConfigurationView> {
    if key == MQTT_URL@ {
        Some(MqttConfigurationView { url: broker_host(value), ..mqtt })
    } else if key == MQTT_PORT@ {
        Some(MqttConfigurationView { port: port_of(value), ..mqtt })
    } else if key == MQTT_TOPIC@ {
        Some(MqttConfigurationView { topic: value, ..mqtt })
    } else if key == MQTT_USERNAME@ {
        Some(MqttConfigurationView { username: value, ..mqtt })
    } else if key == MQTT_PASSWORD@ {
        match decoded(crypto_key, value) {
            Some(password) => Some(MqttConfigurationView { password, ..mqtt }),
            None => None,
        }
    } else {
        Some(mqtt)
    }
}

/// The MQTT settings after one payload name has been read.
pub open spec fn mqtt_names_loaded(mqtt: MqttConfigurationView, key: Seq<char>, value: Seq<char>) -> MqttConfigurationView {
    match name_key(key) {
        Some(flag) => MqttConfigurationView {
            mqtt_entities: mqtt.mqtt_entities.with_name(flag, value),
            ..mqtt
        },
        None => mqtt,
    }
}

/// The version that a text gives: its number, or zero where it is none.
pub open spec fn version_of(value: Seq<char>) -> u32 {
    match settings::number(value) {
        Some(version) => version,
        None => 0,
    }
}

/// The settings after one entry of the settings file has been read; `None`
/// where the entry holds a secret that cannot be decrypted.
///
/// An entry without a value changes nothing, and neither does one of a
/// section or key that the bridge does not know.
pub open spec fn applied(conf: ConfigurationView, crypto_key: Seq<char>, entry: Entry) -> Option<
    ConfigurationView,
> {
    let (section, key, value) = entry;
    if value.len() == 0 || section is None {
        Some(conf)
    } else {
        let name = section->Some_0;
        if name == GENERAL@ {
            if key == GEN_CONF_VERSION@ {
                Some(ConfigurationView { version: version_of(value), ..conf })
            } else {
                Some(conf)
            }
        } else if name == HOME_ASSISTANT@ {
            match ha_loaded(conf.ha, crypto_key, key, value) {
                Some(ha) => Some(ConfigurationView { ha, ..conf }),
                None => None,
            }
        } else if entity_section(name) is Some {
            let flag = entity_section(name)->Some_0;
            Some(
                ConfigurationView {
                    ha: HaConfigurationView {
                        entities: conf.ha.entities.with_entity(
                            flag,
                            entity_loaded(conf.ha.entities.entity(flag), key, value),
                        ),
                        ..conf.ha
                    },
                    ..conf
                },
            )
        } else if name == TEAMS@ {
            match teams_loaded(conf.teams, crypto_key, key, value) {
                Some(teams) => Some(ConfigurationView { teams, ..conf }),
                None => None,
            }
        } else if name == MQTT@ {
            match mqtt_loaded(conf.mqtt, crypto_key, key, value) {
                Some(mqtt) => Some(ConfigurationView { mqtt, ..conf }),
                None => None,
            }
        } else if name == MQTT_ENTITIES@ {
            Some(ConfigurationView { mqtt: mqtt_names_loaded(conf.mqtt, key, value), ..conf })
        } else {
            Some(conf)
        }
    }
}

/// The settings after the entries of a settings file have been read, one
/// after the other, and whether all of them could be read. Reading stops at
/// the first secret that cannot be decrypted.
pub open spec fn loaded(conf: ConfigurationView, crypto_key: Seq<char>, entries: Seq<Entry>) -> (
    ConfigurationView,
    bool,
)
    decreases entries.len(),
{
    if entries.len() == 0 {
        (conf, true)
    } else {
        let (before, readable) = loaded(conf, crypto_key, entries.drop_last());
        if !readable {
            (before, false)
        } else {
            match applied(before, crypto_key, entries.last()) {
                Some(after) => (after, true),
                None => (before, false),
            }
        }
    }
}

fn load_home_assistant(ha: &mut HaConfiguration, crypto_key: &str, key: &str, value: &str) -> (readable:
    bool)
    ensures
        match ha_loaded(old(ha)@, crypto_key@, key@, value@) {
            Some(after) => readable && final(ha)@ == after,
            None => !readable && final(ha)@ == old(ha)@,
        },
{
    if same_text(key, HA_LONG_LIVE_TOKEN) {
        match decrypt_if_needed(crypto_key, value) {
            Some(token) => {
                ha.long_live_token = token;
                true
            },
            None => false,
        }
    } else if same_text(key, HA_URL) {
        ha.url = String::from_str(value);
        true
    } else {
        true
    }
}

fn load_teams(teams: &mut TeamsConfiguration, crypto_key: &str, key: &str, value: &str) -> (readable:
    bool)
    ensures
        match teams_loaded(old(teams)@, crypto_key@, key@, value@) {
            Some(after) => readable && final(teams)@ == after,
            None => !readable && final(teams)@ == old(teams)@,
        },
{
    if same_text(key, TEAMS_URL) {
        teams.url = String::from_str(value);
        true
    } else if same_text(key, TEAMS_API_TOKEN) {
        match decrypt_if_needed(crypto_key, value) {
            Some(token) => {
                teams.api_token = token;
                true
            },
            None => false,
        }
    } else {
        true
    }
}

fn load_mqtt(mqtt: &mut MqttConfiguration, crypto_key: &str, key: &str, value: &str) -> (readable: bool)
    ensures
        match mqtt_loaded(old(mqtt)@, crypto_key@, key@, value@) {
            Some(after) => readable && final(mqtt)@ == after,
            None => !readable && final(mqtt)@ == old(mqtt)@,
        },
{
    if same_text(key, MQTT_URL) {
        mqtt.set_url(String::from_str(value));
        true
    } else if same_text(key, MQTT_PORT) {
        mqtt.port = match settings::parse_short_number(value) {
            Some(port) => port,
            None => MQTT_PORT_DEFAULT,
        };
        true
    } else if same_text(key, MQTT_TOPIC) {
        mqtt.topic = String::from_str(value);
        true
    } else if same_text(key, MQTT_USERNAME) {
        mqtt.username = String::from_str(value);
        true
    } else if same_text(key, MQTT_PASSWORD) {
        match decrypt_if_needed(crypto_key, value) {
            Some(password) => {
                mqtt.password = password;
                true
            },
            None => false,
        }
    } else {
        true
    }
}

fn load_mqtt_names(mqtt: &mut MqttConfiguration, key: &str, value: &str)
    ensures
        final(mqtt)@ == mqtt_names_loaded(old(mqtt)@, key@, value@),
{
    match key_flag(key) {
        Some(flag) => {
            mqtt.mqtt_entities.set_name(flag, String::from_str(value));
        },
        None => {},
    }
}

fn load_entity_of(ha: &mut HaConfiguration, flag: Flag, key: &str, value: &str)
    ensures
        final(ha)@ == (HaConfigurationView {
            entities: old(ha)@.entities.with_entity(
                flag,
                entity_loaded(old(ha)@.entities.entity(flag), key@, value@),
            ),
            ..old(ha)@
        }),
{
    let mut entity = ha.entities.entity(flag).duplicate();
    load_entity(&mut entity, key, String::from_str(value));
    ha.entities.set_entity(flag, entity);
}

fn load_version(value: &str) -> (version: u32)
    ensures
        version == version_of(value@),
{
    match settings::parse_number(value) {
        Some(version) => version,
        None => 0,
    }
}

/// Reads one entry of the settings file into the settings. Returns whether
/// the entry could be read; where it could not, the settings are as
/// before.
pub fn apply_setting(
    conf: &mut Configuration,
    crypto_key: &str,
    section: Option<&str>,
    key: &str,
    value: &str,
) -> (readable: bool)
    ensures
        match applied(old(conf)@, crypto_key@, (crate::utils::option_str(section), key@, value@)) {
            Some(after) => readable && final(conf)@ == after,
            None => !readable && final(conf)@ == old(conf)@,
        },
{
    if value.is_empty() {
        return true;
    }
    let name = match section {
        Some(name) => name,
        None => {
            return true;
        },
    };
    if same_text(name, GENERAL) {
        if same_text(key, GEN_CONF_VERSION) {
            conf.version = load_version(value);
        }
        return true;
    }
    if same_text(name, HOME_ASSISTANT) {
        return load_home_assistant(&mut conf.ha, crypto_key, key, value);
    }
    match section_flag(name) {
        Some(flag) => {
            load_entity_of(&mut conf.ha, flag, key, value);
            return true;
        },
        None => {},
    }
    if same_text(name, TEAMS) {
        return load_teams(&mut conf.teams, crypto_key, key, value);
    }
    if same_text(name, MQTT) {
        return load_mqtt(&mut conf.mqtt, crypto_key, key, value);
    }
    if same_text(name, MQTT_ENTITIES) {
        load_mqtt_names(&mut conf.mqtt, key, value);
    }
    true
}

/// Reads a settings file into the settings, entry after entry.
///
/// Fails where a stored secret cannot be decrypted; the settings then hold
/// what the entries before it gave.
pub fn load_configuration(conf: &mut Configuration, crypto_key: &str, file: &ini::Ini) -> (outcome: Result<
    (),
    Error,
>)
    ensures
        final(conf)@ == loaded(old(conf)@, crypto_key@, settings::entries(*file)).0,
        outcome is Ok == loaded(old(conf)@, crypto_key@, settings::entries(*file)).1,
        outcome matches Err(error) ==> error@ == SECRET_UNREADABLE@,
{
    let list = settings::read_entries(file);
    let ghost all = settings::entries(*file);
    let mut index: usize = 0;
    proof {
        assert(all.take(0) =~= Seq::empty());
    }
    while index < list.len()
        invariant
            index <= list.len(),
            all == settings::entries_view(list@),
            all == settings::entries(*file),
            loaded(old(conf)@, crypto_key@, all.take(index as int)) == (conf@, true),
        decreases list.len() - index,
    {
        proof {
            let longer = all.take(index + 1);
            assert(longer.drop_last() =~= all.take(index as int));
            assert(longer.last() == all[index as int]);
        }
        let section = match &list[index].0 {
            Some(name) => Some(name.as_str()),
            None => None,
        };
        let ghost before = conf@;
        let readable = apply_setting(
            conf,
            crypto_key,
            section,
            list[index].1.as_str(),
            list[index].2.as_str(),
        );
        proof {
            let entry = all[index as int];
            assert(entry == (crate::utils::option_str(section), list[index as int].1@, list[index as int].2@));
            assert(loaded(old(conf)@, crypto_key@, all.take(index + 1)) == (conf@, readable));
        }
        if !readable {
            proof {
                unreadable_stops(old(conf)@, crypto_key@, all, index + 1);
            }
            return Err(Error::new(String::from_str(SECRET_UNREADABLE)));
        }
        index = index + 1;
    }
    proof {
        assert(all.take(list.len() as int) =~= all);
    }
    Ok(())
}

/// Once an entry could not be read, the entries after it change nothing.
pub proof fn unreadable_stops(conf: ConfigurationView, crypto_key: Seq<char>, entries: Seq<Entry>, count: int)
    requires
        0 <= count <= entries.len(),
        !loaded(conf, crypto_key, entries.take(count)).1,
    ensures
        loaded(conf, crypto_key, entries) == loaded(conf, crypto_key, entries.take(count)),
    decreases entries.len() - count,
{
    if count < entries.len() {
        let longer = entries.take(count + 1);
        assert(longer.drop_last() =~= entries.take(count));
        unreadable_stops(conf, crypto_key, entries, count + 1);
    } else {
        assert(entries.take(count) =~= entries);
    }
}

/// The copy to make of a settings file before it is rewritten: none for a
/// file of the current layout.
pub open spec fn backup_of(version: u32) -> Option<Seq<char>> {
    if version < GEN_CONF_VERSION_CUTOFF {
        Some(INI_FILE_NAME@ + "_backup_v"@ + settings::decimal(version) + ".ini"@)
    } else {
        None
    }
}

/// The name of the copy to make of the settings file that the settings
/// were read from, if one is to be made.
pub fn backup_name(version: u32) -> (name: Option<String>)
    ensures
        crate::utils::option_text(name) == backup_of(version),
{
    if version < GEN_CONF_VERSION_CUTOFF {
        let mut name = String::from_str(INI_FILE_NAME);
        name.append("_backup_v");
        name.append(settings::write_number(version).as_str());
        name.append(".ini");
        Some(name)
    } else {
        None
    }
}

/// A map of values with one more: the value of a key of a section.
pub open spec fn with_value(
    values: Map<(Option<Seq<char>>, Seq<char>), Seq<char>>,
    section: Seq<char>,
    key: Seq<char>,
    value: Seq<char>,
) -> Map<(Option<Seq<char>>, Seq<char>), Seq<char>> {
    values.insert((Some(section), key), value)
}

/// A map of values with the settings of one entity under a section.
pub open spec fn with_entity_values(
    values: Map<(Option<Seq<char>>, Seq<char>), Seq<char>>,
    section: Seq<char>,
    entity: HaEntityView,
) -> Map<(Option<Seq<char>>, Seq<char>), Seq<char>> {
    with_value(
        with_value(
            with_value(
                with_value(values, section, HA_ID@, entity.id),
                section,
                HA_FRIENDLY_NAME@,
                entity.friendly_name,
            ),
            section,
            HA_ICON_ON@,
            entity.icons.on,
        ),
        section,
        HA_ICON_OFF@,
        entity.icons.off,
    )
}

/// Puts the settings of one entity into a settings file, under a section.
pub fn add_entity(file: &mut ini::Ini, section: &str, ha_entity: &HaEntity)
    ensures
        settings::values(*final(file)) == with_entity_values(
            settings::values(*old(file)),
            section@,
            ha_entity@,
        ),
{
    settings::set_value(file, section, HA_ID, ha_entity.id.as_str());
    settings::set_value(file, section, HA_FRIENDLY_NAME, ha_entity.friendly_name.as_str());
    settings::set_value(file, section, HA_ICON_ON, ha_entity.icons.on.as_str());
    settings::set_value(file, section, HA_ICON_OFF, ha_entity.icons.off.as_str());
}

/// The values of the upstream and Home Assistant sections.
pub open spec fn connection_values(conf: ConfigurationView, crypto_key: Seq<char>) -> Map<
    (Option<Seq<char>>, Seq<char>),
    Seq<char>,
> {
    with_value(
        with_value(
            with_value(
                with_value(settings::no_values(), TEAMS@, TEAMS_URL@, conf.teams.url),
                TEAMS@,
                TEAMS_API_TOKEN@,
                crate::utils::encoded(crypto_key, conf.teams.api_token),
            ),
            HOME_ASSISTANT@,
            HA_URL@,
            conf.ha.url,
        ),
        HOME_ASSISTANT@,
        HA_LONG_LIVE_TOKEN@,
        crate::utils::encoded(crypto_key, conf.ha.long_live_token),
    )
}

/// The values with the sections of the eight entities.
pub open spec fn with_entities_values(
    values: Map<(Option<Seq<char>>, Seq<char>), Seq<char>>,
    entities: HaEntitiesView,
) -> Map<(Option<Seq<char>>, Seq<char>), Seq<char>> {
    let muted = with_entity_values(values, HA_MUTED@, entities.is_muted);
    let video = with_entity_values(muted, HA_VIDEO_ON@, entities.is_video_on);
    let hand = with_entity_values(video, HA_HAND_RAISED@, entities.is_hand_raised);
    let meeting = with_entity_values(hand, HA_IN_A_MEETING@, entities.is_in_meeting);
    let recording = with_entity_values(meeting, HA_RECORDING@, entities.is_recording_on);
    let blurred = with_entity_values(
        recording,
        HA_BACKGROUND_BLURRED@,
        entities.is_background_blurred,
    );
    let sharing = with_entity_values(blurred, HA_SHARING@, entities.is_sharing);
    with_entity_values(sharing, HA_UNREAD_MESSAGES@, entities.has_unread_messages)
}

/// The values with the MQTT section.
pub open spec fn with_mqtt_values(
    values: Map<(Option<Seq<char>>, Seq<char>), Seq<char>>,
    mqtt: MqttConfigurationView,
    crypto_key: Seq<char>,
) -> Map<(Option<Seq<char>>, Seq<char>), Seq<char>> {
    with_value(
        with_value(
            with_value(
                with_value(
                    with_value(values, MQTT@, MQTT_URL@, mqtt.url),
                    MQTT@,
                    MQTT_PORT@,
                    settings::decimal(mqtt.port as u32),
                ),
                MQTT@,
                MQTT_TOPIC@,
                mqtt.topic,
            ),
            MQTT@,
            MQTT_USERNAME@,
            mqtt.username,
        ),
        MQTT@,
        MQTT_PASSWORD@,
        crate::utils::encoded(crypto_key, mqtt.password),
    )
}

/// The values with the payload names of the MQTT sink.
pub open spec fn with_name_values(
    values: Map<(Option<Seq<char>>, Seq<char>), Seq<char>>,
    mqtt: MqttConfigurationView,
) -> Map<(Option<Seq<char>>, Seq<char>), Seq<char>> {
    let names = mqtt.mqtt_entities;
    let muted = with_value(values, MQTT_ENTITIES@, MQTT_MUTED@, names.muted);
    let video = with_value(muted, MQTT_ENTITIES@, MQTT_VIDEO@, names.video);
    let hand = with_value(video, MQTT_ENTITIES@, MQTT_HAND_RAISED@, names.hand_raised);
    let meeting = with_value(hand, MQTT_ENTITIES@, MQTT_MEETING@, names.meeting);
    let recording = with_value(meeting, MQTT_ENTITIES@, MQTT_RECORDING@, names.recording);
    let blurred = with_value(
        recording,
        MQTT_ENTITIES@,
        MQTT_BACKGROUND_BLURRED@,
        names.background_blurred,
    );
    let sharing = with_value(blurred, MQTT_ENTITIES@, MQTT_SHARING@, names.sharing);
    with_value(sharing, MQTT_ENTITIES@, MQTT_UNREAD_MESSAGES@, names.unread_messages)
}

/// The values of the settings file that stores the settings: every
/// setting under its section and key, the secrets encoded, and the version
/// that the bridge writes.
pub open spec fn saved_values(conf: ConfigurationView, crypto_key: Seq<char>) -> Map<
    (Option<Seq<char>>, Seq<char>),
    Seq<char>,
> {
    with_value(
        with_name_values(
            with_mqtt_values(
                with_entities_values(connection_values(conf, crypto_key), conf.ha.entities),
                conf.mqtt,
                crypto_key,
            ),
            conf.mqtt,
        ),
        GENERAL@,
        GEN_CONF_VERSION@,
        settings::decimal(GEN_CONF_VERSION_CURRENT),
    )
}

fn save_connections(file: &mut ini::Ini, conf: &Configuration, crypto_key: &str)
    requires
        settings::values(*old(file)) == settings::no_values(),
    ensures
        settings::values(*final(file)) == connection_values(conf@, crypto_key@),
{
    settings::set_value(file, TEAMS, TEAMS_URL, conf.teams.url.as_str());
    let token = crate::utils::encrypt(crypto_key, conf.teams.api_token.as_str());
    settings::set_value(file, TEAMS, TEAMS_API_TOKEN, token.as_str());
    settings::set_value(file, HOME_ASSISTANT, HA_URL, conf.ha.url.as_str());
    let secret = crate::utils::encrypt(crypto_key, conf.ha.long_live_token.as_str());
    settings::set_value(file, HOME_ASSISTANT, HA_LONG_LIVE_TOKEN, secret.as_str());
}

fn save_entities(file: &mut ini::Ini, conf: &Configuration)
    ensures
        settings::values(*final(file)) == with_entities_values(
            settings::values(*old(file)),
            conf@.ha.entities,
        ),
{
    let ha_entities = &conf.ha.entities;
    add_entity(file, HA_MUTED, &ha_entities.is_muted);
    add_entity(file, HA_VIDEO_ON, &ha_entities.is_video_on);
    add_entity(file, HA_HAND_RAISED, &ha_entities.is_hand_raised);
    add_entity(file, HA_IN_A_MEETING, &ha_entities.is_in_meeting);
    add_entity(file, HA_RECORDING, &ha_entities.is_recording_on);
    add_entity(file, HA_BACKGROUND_BLURRED, &ha_entities.is_background_blurred);
    add_entity(file, HA_SHARING, &ha_entities.is_sharing);
    add_entity(file, HA_UNREAD_MESSAGES, &ha_entities.has_unread_messages);
}

fn save_mqtt(file: &mut ini::Ini, mqtt: &MqttConfiguration, crypto_key: &str)
    ensures
        settings::values(*final(file)) == with_mqtt_values(
            settings::values(*old(file)),
            mqtt@,
            crypto_key@,
        ),
{
    settings::set_value(file, MQTT, MQTT_URL, mqtt.url());
    let port: u32 = mqtt.port as u32;
    settings::set_value(file, MQTT, MQTT_PORT, settings::write_number(port).as_str());
    settings::set_value(file, MQTT, MQTT_TOPIC, mqtt.topic.as_str());
    settings::set_value(file, MQTT, MQTT_USERNAME, mqtt.username.as_str());
    let password = crate::utils::encrypt(crypto_key, mqtt.password.as_str());
    settings::set_value(file, MQTT, MQTT_PASSWORD, password.as_str());
}

fn save_names(file: &mut ini::Ini, mqtt: &MqttConfiguration)
    ensures
        settings::values(*final(file)) == with_name_values(settings::values(*old(file)), mqtt@),
{
    let names = &mqtt.mqtt_entities;
    settings::set_value(file, MQTT_ENTITIES, MQTT_MUTED, names.muted.as_str());
    settings::set_value(file, MQTT_ENTITIES, MQTT_VIDEO, names.video.as_str());
    settings::set_value(file, MQTT_ENTITIES, MQTT_HAND_RAISED, names.hand_raised.as_str());
    settings::set_value(file, MQTT_ENTITIES, MQTT_MEETING, names.meeting.as_str());
    settings::set_value(file, MQTT_ENTITIES, MQTT_RECORDING, names.recording.as_str());
    settings::set_value(
        file,
        MQTT_ENTITIES,
        MQTT_BACKGROUND_BLURRED,
        names.background_blurred.as_str(),
    );
    settings::set_value(file, MQTT_ENTITIES, MQTT_SHARING, names.sharing.as_str());
    settings::set_value(file, MQTT_ENTITIES, MQTT_UNREAD_MESSAGES, names.unread_messages.as_str());
}

/// Makes the settings file that stores the settings.
pub fn save_ha_configuration(conf: &Configuration, crypto_key: &str) -> (file: ini::Ini)
    ensures
        settings::values(file) == saved_values(conf@, crypto_key@),
{
    let mut file = settings::new_file();
    save_connections(&mut file, conf, crypto_key);
    save_entities(&mut file, conf);
    save_mqtt(&mut file, &conf.mqtt, crypto_key);
    save_names(&mut file, &conf.mqtt);
    settings::set_value(
        &mut file,
        GENERAL,
        GEN_CONF_VERSION,
        settings::write_number(GEN_CONF_VERSION_CURRENT).as_str(),
    );
    file
}

/// The settings of a start of the bridge, with what the caller has to do
/// about the settings file.
pub struct Startup {
    pub conf: Configuration,
    /// The name of the copy to make of the settings file, if one is to be
    /// made.
    pub backup: Option<String>,
    /// The settings file to write, if one is to be written.
    pub file: Option<ini::Ini>,
}

/// Gets the settings for a start of the bridge: the defaults, changed by
/// what the settings file holds. The file is made anew where
/// `save_configuration` asks for it, so that it shows every setting.
///
/// Fails where a stored secret cannot be decrypted.
pub fn get_configuration(crypto_key: &str, stored: &ini::Ini, save_configuration: bool) -> (outcome:
    Result<Startup, Error>)
    ensures
        outcome is Ok == loaded(default_configuration(), crypto_key@, settings::entries(*stored)).1,
        outcome matches Ok(startup) ==> {
            &&& startup.conf@ == loaded(
                default_configuration(),
                crypto_key@,
                settings::entries(*stored),
            ).0
            &&& crate::utils::option_text(startup.backup) == backup_of(startup.conf.version)
            &&& startup.file is Some == save_configuration
            &&& startup.file matches Some(file) ==> settings::values(file) == saved_values(
                startup.conf@,
                crypto_key@,
            )
        },
        outcome matches Err(error) ==> error@ == SECRET_UNREADABLE@,
{
    let mut conf = create_configuration();
    match load_configuration(&mut conf, crypto_key, stored) {
        Ok(_) => {},
        Err(error) => {
            return Err(error);
        },
    }
    let backup = backup_name(conf.version);
    let file = if save_configuration {
        Some(save_ha_configuration(&conf, crypto_key))
    } else {
        None
    };
    Ok(Startup { conf, backup, file })
}

} // verus!

