use teams_status::configuration::add_entity;
use teams_status::configuration::apply_setting;
use teams_status::configuration::backup_name;
use teams_status::configuration::create_configuration;
use teams_status::configuration::flag_section;
use teams_status::configuration::get_configuration;
use teams_status::configuration::key_flag;
use teams_status::configuration::load_configuration;
use teams_status::configuration::load_entity;
use teams_status::configuration::save_ha_configuration;
use teams_status::configuration::section_flag;
use teams_status::configuration::GEN_CONF_VERSION_CURRENT;
use teams_status::configuration::GEN_CONF_VERSION_CUTOFF;
use teams_status::configuration::INI_FILE_NAME;
use teams_status::teams_ws::configuration::change_teams_configuration;
use teams_status::teams_ws::configuration::create_teams_configuration;
use teams_status::teams_ws::configuration::persist_token;
use teams_status::teams_ws::configuration::TEAMS;
use teams_status::teams_ws::configuration::TEAMS_API_TOKEN;
use teams_status::teams_ws::configuration::TEAMS_URL;
use teams_status::teams_ws::states::Flag;
use teams_status::utils::encrypt;

const KEY: &str = "a key for the tests";

fn file(text: &str) -> ini::Ini {
    ini::Ini::load_from_str(text).unwrap()
}

#[test]
fn default_teams_settings() {
    let conf = create_teams_configuration();
    assert_eq!(conf.url, "ws://localhost:8124");
    assert_eq!(conf.api_token, "");
    assert_eq!(TEAMS, "Teams");
    assert_eq!(TEAMS_URL, "URL");
    assert_eq!(TEAMS_API_TOKEN, "API Token");
}

#[test]
fn default_settings_have_version_zero() {
    let conf = create_configuration();
    assert_eq!(conf.version, 0);
    assert_eq!(conf.teams.url, "ws://localhost:8124");
    assert_eq!(conf.mqtt.port, 1883);
    assert_eq!(conf.ha.entities.is_sharing.id, "binary_sensor.teams_sharing");
}

#[test]
fn empty_file_changes_nothing() {
    let mut conf = create_configuration();
    assert!(load_configuration(&mut conf, KEY, &ini::Ini::new()).is_ok());
    assert_eq!(conf.version, 0);
    assert_eq!(conf.teams.url, "ws://localhost:8124");
    assert_eq!(conf.mqtt.url(), "");
}

#[test]
fn file_sets_every_section() {
    let text = "[General]\nConfiguration Version=1\n\
                [Home Assistant]\nURL=http://ha:8123\nLong Live Token=plain-token\n\
                [Home Assistant Entity - Muted]\nID=sensor.m\nFriendly Name=M\nIcon On=mdi:a\nIcon Off=mdi:b\n\
                [Home Assistant Entity - Unread Messages]\nID=sensor.u\n\
                [Teams]\nURL=ws://teams:1\nAPI Token=plain\n\
                [MQTT]\nURL=MQTT://broker\nPort=8883\nTopic=t\nUsername=u\nPassword=p\n\
                [MQTT Entities]\nMuted=m\nVideo=v\nHand Raised=h\nMeeting=i\nRecording=r\n\
                Background Blurred=b\nSharing=s\nUnread Messages=n\n";
    let mut conf = create_configuration();
    assert!(load_configuration(&mut conf, KEY, &file(text)).is_ok());
    assert_eq!(conf.version, 1);
    assert_eq!(conf.ha.url, "http://ha:8123");
    assert_eq!(conf.ha.long_live_token, "plain-token");
    assert_eq!(conf.ha.entities.is_muted.id, "sensor.m");
    assert_eq!(conf.ha.entities.is_muted.friendly_name, "M");
    assert_eq!(conf.ha.entities.is_muted.icons.on, "mdi:a");
    assert_eq!(conf.ha.entities.is_muted.icons.off, "mdi:b");
    assert_eq!(conf.ha.entities.has_unread_messages.id, "sensor.u");
    assert_eq!(conf.ha.entities.has_unread_messages.friendly_name, "Teams Unread Messages");
    assert_eq!(conf.ha.entities.is_video_on.id, "binary_sensor.teams_video");
    assert_eq!(conf.teams.url, "ws://teams:1");
    assert_eq!(conf.teams.api_token, "plain");
    assert_eq!(conf.mqtt.url(), "broker");
    assert_eq!(conf.mqtt.port, 8883);
    assert_eq!(conf.mqtt.topic, "t");
    assert_eq!(conf.mqtt.username, "u");
    assert_eq!(conf.mqtt.password, "p");
    assert_eq!(conf.mqtt.mqtt_entities.muted, "m");
    assert_eq!(conf.mqtt.mqtt_entities.video, "v");
    assert_eq!(conf.mqtt.mqtt_entities.hand_raised, "h");
    assert_eq!(conf.mqtt.mqtt_entities.meeting, "i");
    assert_eq!(conf.mqtt.mqtt_entities.recording, "r");
    assert_eq!(conf.mqtt.mqtt_entities.background_blurred, "b");
    assert_eq!(conf.mqtt.mqtt_entities.sharing, "s");
    assert_eq!(conf.mqtt.mqtt_entities.unread_messages, "n");
}

#[test]
fn unknown_sections_keys_and_empty_values_are_passed_over() {
    let text = "stray=1\n[Teams]\nURL=\nColour=red\n[Nothing]\nURL=x\n[MQTT]\nPort=many\n\
                [General]\nConfiguration Version=new\n[MQTT Entities]\nVolume=loud\n";
    let mut conf = create_configuration();
    conf.version = 7;
    conf.mqtt.port = 1;
    assert!(load_configuration(&mut conf, KEY, &file(text)).is_ok());
    assert_eq!(conf.teams.url, "ws://localhost:8124");
    assert_eq!(conf.mqtt.port, 1883);
    assert_eq!(conf.version, 0);
    assert_eq!(conf.mqtt.mqtt_entities.muted, "muted");
}

#[test]
fn port_that_does_not_fit_is_the_standard_port() {
    let mut conf = create_configuration();
    assert!(apply_setting(&mut conf, KEY, Some("MQTT"), "Port", "65535"));
    assert_eq!(conf.mqtt.port, 65535);
    assert!(apply_setting(&mut conf, KEY, Some("MQTT"), "Port", "65536"));
    assert_eq!(conf.mqtt.port, 1883);
    assert!(apply_setting(&mut conf, KEY, None, "Port", "1"));
    assert_eq!(conf.mqtt.port, 1883);
}

#[test]
fn later_entry_wins() {
    let text = "[Teams]\nURL=ws://first\n[MQTT]\nTopic=a\n[Teams]\nURL=ws://second\n";
    let mut conf = create_configuration();
    assert!(load_configuration(&mut conf, KEY, &file(text)).is_ok());
    assert_eq!(conf.teams.url, "ws://second");
}

#[test]
fn stored_secrets_are_decrypted() {
    let text = format!(
        "[Teams]\nAPI Token={}\n[Home Assistant]\nLong Live Token={}\n[MQTT]\nPassword={}\n",
        encrypt(KEY, "api"),
        encrypt(KEY, "llt"),
        encrypt(KEY, "pw")
    );
    let mut conf = create_configuration();
    assert!(load_configuration(&mut conf, KEY, &file(&text)).is_ok());
    assert_eq!(conf.teams.api_token, "api");
    assert_eq!(conf.ha.long_live_token, "llt");
    assert_eq!(conf.mqtt.password, "pw");
}

#[test]
fn secret_that_cannot_be_decrypted_stops_the_reading() {
    let text = "[Teams]\nURL=ws://first\nAPI Token=en//this is no cipher text\n[MQTT]\nTopic=late\n";
    let mut conf = create_configuration();
    match load_configuration(&mut conf, KEY, &file(text)) {
        Err(error) => assert_eq!(error.to_string(), "A stored secret cannot be decrypted"),
        Ok(()) => panic!("expected the reading to fail"),
    }
    assert_eq!(conf.teams.url, "ws://first");
    assert_eq!(conf.teams.api_token, "");
    assert_eq!(conf.mqtt.topic, "teams-status");
    assert!(get_configuration(KEY, &file(text), true).is_err());
}

#[test]
fn load_entity_knows_four_settings() {
    let mut entity = create_configuration().ha.entities.is_sharing;
    load_entity(&mut entity, "ID", "a".to_string());
    load_entity(&mut entity, "Friendly Name", "b".to_string());
    load_entity(&mut entity, "Icon On", "c".to_string());
    load_entity(&mut entity, "Icon Off", "d".to_string());
    load_entity(&mut entity, "Colour", "e".to_string());
    assert_eq!(entity.id, "a");
    assert_eq!(entity.friendly_name, "b");
    assert_eq!(entity.icons.on, "c");
    assert_eq!(entity.icons.off, "d");
}

#[test]
fn sections_and_keys_name_their_flags() {
    assert_eq!(section_flag("Home Assistant Entity - In a Meeting"), Some(Flag::InMeeting));
    assert_eq!(section_flag("Home Assistant Entity - Video On"), Some(Flag::VideoOn));
    assert_eq!(section_flag("Home Assistant"), None);
    assert_eq!(key_flag("Background Blurred"), Some(Flag::BackgroundBlurred));
    assert_eq!(key_flag("Blurred"), None);
    for flag in [Flag::Muted, Flag::HandRaised, Flag::RecordingOn, Flag::Sharing, Flag::UnreadMessages] {
        assert_eq!(section_flag(flag_section(flag)), Some(flag));
    }
}

#[test]
fn saved_file_holds_every_setting() {
    let mut conf = create_configuration();
    conf.teams.api_token = "api".to_string();
    conf.ha.url = "http://ha".to_string();
    conf.mqtt.set_url("mqtt://broker".to_string());
    conf.mqtt.port = 8883;
    let saved = save_ha_configuration(&conf, KEY);
    assert_eq!(saved.get_from(Some("Teams"), "URL"), Some("ws://localhost:8124"));
    assert_eq!(saved.get_from(Some("Teams"), "API Token"), Some(encrypt(KEY, "api").as_str()));
    assert_eq!(saved.get_from(Some("Home Assistant"), "URL"), Some("http://ha"));
    assert_eq!(
        saved.get_from(Some("Home Assistant"), "Long Live Token"),
        Some(encrypt(KEY, "").as_str())
    );
    assert_eq!(
        saved.get_from(Some("Home Assistant Entity - Sharing"), "ID"),
        Some("binary_sensor.teams_sharing")
    );
    assert_eq!(
        saved.get_from(Some("Home Assistant Entity - Muted"), "Icon Off"),
        Some("mdi:microphone-off")
    );
    assert_eq!(saved.get_from(Some("MQTT"), "URL"), Some("broker"));
    assert_eq!(saved.get_from(Some("MQTT"), "Port"), Some("8883"));
    assert_eq!(saved.get_from(Some("MQTT"), "Topic"), Some("teams-status"));
    assert_eq!(saved.get_from(Some("MQTT Entities"), "Meeting"), Some("in_meeting"));
    assert_eq!(saved.get_from(Some("General"), "Configuration Version"), Some("1"));
    assert_eq!(saved.iter().count(), 14);
}

#[test]
fn saved_file_reads_back() {
    let mut conf = create_configuration();
    conf.teams.api_token = "api".to_string();
    conf.ha.long_live_token = "llt".to_string();
    conf.mqtt.password = "pw".to_string();
    conf.mqtt.set_url("broker".to_string());
    conf.ha.entities.is_muted.friendly_name = "Microphone".to_string();
    let mut text = Vec::new();
    save_ha_configuration(&conf, KEY).write_to(&mut text).unwrap();
    let stored = file(std::str::from_utf8(&text).unwrap());
    let startup = match get_configuration(KEY, &stored, false) {
        Ok(startup) => startup,
        Err(error) => panic!("{}", error.to_string()),
    };
    assert_eq!(startup.conf.teams.api_token, "api");
    assert_eq!(startup.conf.ha.long_live_token, "llt");
    assert_eq!(startup.conf.mqtt.password, "pw");
    assert_eq!(startup.conf.mqtt.url(), "broker");
    assert_eq!(startup.conf.ha.entities.is_muted.friendly_name, "Microphone");
    assert_eq!(startup.conf.version, 1);
    assert_eq!(startup.backup, None);
    assert!(startup.file.is_none());
}

#[test]
fn first_start_writes_the_file_and_copies_the_old_one() {
    let startup = match get_configuration(KEY, &ini::Ini::new(), true) {
        Ok(startup) => startup,
        Err(error) => panic!("{}", error.to_string()),
    };
    assert_eq!(startup.conf.version, 0);
    assert_eq!(startup.backup.as_deref(), Some("conf.ini_backup_v0.ini"));
    let written = startup.file.expect("a file to write");
    assert_eq!(written.get_from(Some("General"), "Configuration Version"), Some("1"));
}

#[test]
fn backup_is_made_below_the_cutoff() {
    assert_eq!(GEN_CONF_VERSION_CURRENT, 1);
    assert_eq!(GEN_CONF_VERSION_CUTOFF, 1);
    assert_eq!(INI_FILE_NAME, "conf.ini");
    assert_eq!(backup_name(0).as_deref(), Some("conf.ini_backup_v0.ini"));
    assert_eq!(backup_name(1), None);
    assert_eq!(backup_name(4000000000), None);
}

#[test]
fn add_entity_sets_four_keys() {
    let mut stored = ini::Ini::new();
    let entity = create_configuration().ha.entities.is_in_meeting;
    add_entity(&mut stored, "Section", &entity);
    assert_eq!(stored.get_from(Some("Section"), "ID"), Some("binary_sensor.teams_meeting"));
    assert_eq!(stored.get_from(Some("Section"), "Friendly Name"), Some("Teams Meeting"));
    assert_eq!(stored.get_from(Some("Section"), "Icon On"), Some("mdi:phone-in-talk"));
    assert_eq!(stored.get_from(Some("Section"), "Icon Off"), Some("mdi:phone-off"));
    assert_eq!(stored.section(Some("Section")).unwrap().len(), 4);
}

#[test]
fn token_refresh_is_one_set_call() {
    let mut stored = file("[Teams]\nURL=ws://localhost:8124\nAPI Token=old\n[MQTT]\nTopic=t\n");
    persist_token(&mut stored, "abc123");
    assert_eq!(stored.get_from(Some("Teams"), "API Token"), Some("abc123"));
    assert_eq!(stored.get_from(Some("Teams"), "URL"), Some("ws://localhost:8124"));
    assert_eq!(stored.get_from(Some("MQTT"), "Topic"), Some("t"));
    assert_eq!(stored.section(Some("Teams")).unwrap().len(), 2);
    change_teams_configuration(&mut stored, "New", "Key", "value");
    assert_eq!(stored.get_from(Some("New"), "Key"), Some("value"));
}
