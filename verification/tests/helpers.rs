use teams_status::bridge::run_apis;
use teams_status::bridge::Sink;
use teams_status::configuration::create_configuration;
use teams_status::error::Error;
use teams_status::logging::log_paths;
use teams_status::logging::LOG_PATTERN;
use teams_status::logging::LOG_SIZE_LIMIT;
use teams_status::mutex::create_outcome;
use teams_status::mutex::mutex_name;
use teams_status::mutex::MutexOutcome;
use teams_status::teams_log::file_locator::comes_before;
use teams_status::teams_log::file_locator::ends_with;
use teams_status::teams_log::file_locator::locate_latest_log;
use teams_status::teams_log::file_locator::names_teams_log;
use teams_status::teams_log::file_locator::TEAMS_PREFIX;
use teams_status::teams_log::parser::get_last_state;
use teams_status::teams_log::parser::status_expression;
use teams_status::teams_log::watcher::WatchStep;
use teams_status::teams_log::watcher::Watcher;
use teams_status::teams_ws::states::TeamsStates;
use teams_status::traits::Listener;
use teams_status::traits::SinkAction;
use teams_status::tray::launch_label;
use teams_status::tray::menu_action;
use teams_status::tray::restart_delay;
use teams_status::tray::Application;
use teams_status::tray::MenuAction;
use teams_status::utils::bool_to_str;
use teams_status::utils::decrypt_if_needed;
use teams_status::utils::encrypt;
use teams_status::utils::same_text;
use teams_status::utils::skip_chars;
use teams_status::utils::starts_with;

#[test]
fn bool_to_str_is_on_or_off() {
    assert_eq!(bool_to_str(true), "on");
    assert_eq!(bool_to_str(false), "off");
}

#[test]
fn prefix_and_suffix_tests() {
    assert!(starts_with("en//abc", "en//"));
    assert!(starts_with("en//", "en//"));
    assert!(starts_with("abc", ""));
    assert!(!starts_with("en/", "en//"));
    assert!(!starts_with("xen//", "en//"));
    assert!(starts_with("\u{e9}t\u{e9}", "\u{e9}t"));
    assert!(ends_with("a.log", ".log"));
    assert!(ends_with(".log", ".log"));
    assert!(!ends_with("log", ".log"));
    assert!(!ends_with("a.log.txt", ".log"));
    assert!(same_text("abc", "abc"));
    assert!(!same_text("abc", "abcd"));
    assert!(!same_text("abc", "abd"));
    assert_eq!(skip_chars("h\u{e9}llo", 2), "llo");
    assert_eq!(skip_chars("abc", 3), "");
    assert_eq!(skip_chars("abc", 0), "abc");
}

#[test]
fn encrypt_marks_and_decrypt_reads_back() {
    let stored = encrypt("key", "secret value");
    assert!(stored.starts_with("en//"));
    assert_ne!(stored, "en//secret value");
    assert_eq!(decrypt_if_needed("key", &stored).as_deref(), Some("secret value"));
    assert_eq!(encrypt("key", "secret value"), stored);
    assert_ne!(encrypt("other key", "secret value"), stored);
}

#[test]
fn decrypt_if_needed_takes_plain_values_as_they_are() {
    assert_eq!(decrypt_if_needed("key", "plain").as_deref(), Some("plain"));
    assert_eq!(decrypt_if_needed("key", "").as_deref(), Some(""));
    assert_eq!(decrypt_if_needed("key", "en/").as_deref(), Some("en/"));
}

#[test]
fn decrypt_if_needed_fails_on_what_is_no_cipher_text() {
    assert_eq!(decrypt_if_needed("key", "en//not base64 at all"), None);
    let stored = encrypt("key", "secret value");
    assert_ne!(decrypt_if_needed("other key", &stored).as_deref(), Some("secret value"));
}

#[test]
fn error_keeps_its_message() {
    let error = Error::new("something failed".to_string());
    assert_eq!(error.message(), "something failed");
    assert_eq!(error.to_string(), "something failed");
    assert_eq!(error.clone().to_string(), "something failed");
}

#[test]
fn error_from_a_url_error() {
    let failure = url::Url::parse("http://[::1").unwrap_err();
    assert_eq!(Error::from(failure).to_string(), "Parse error: invalid IPv6 address");
    let failure = url::Url::parse("").unwrap_err();
    assert_eq!(Error::from(failure).to_string(), "Parse error: relative URL without a base");
}

#[test]
fn error_of_the_home_assistant_client() {
    assert_eq!(
        Error::home_assistant("Unable to send the request").to_string(),
        "Home Assistant: Unable to send the request"
    );
}

#[test]
fn mutex_name_is_the_digest_of_the_path() {
    assert_eq!(mutex_name(""), "Global\\d41d8cd98f00b204e9800998ecf8427e");
    assert_eq!(mutex_name("abc"), "Global\\900150983cd24fb0d6963f7d28e17f72");
    assert_eq!(
        mutex_name("The quick brown fox jumps over the lazy dog"),
        "Global\\9e107d9d372bb6826bd81d3542a419d6"
    );
}

#[test]
fn mutex_outcomes() {
    assert_eq!(create_outcome(0), MutexOutcome::Created);
    assert_eq!(create_outcome(183), MutexOutcome::AlreadyRunning);
    assert_eq!(create_outcome(5), MutexOutcome::Failed);
}

#[test]
fn log_goes_below_the_local_application_data() {
    let paths = log_paths(Some("C:\\Users\\me\\AppData\\Local"));
    assert_eq!(paths.directory, "C:\\Users\\me\\AppData\\Local\\teams-status-rs");
    assert_eq!(paths.log_path, "C:\\Users\\me\\AppData\\Local\\teams-status-rs\\output.log");
    assert_eq!(
        paths.old_log_path,
        "C:\\Users\\me\\AppData\\Local\\teams-status-rs\\output_old{}.log"
    );
    let paths = log_paths(None);
    assert_eq!(paths.directory, ".");
    assert_eq!(paths.log_path, ".\\output.log");
    assert_eq!(paths.old_log_path, ".\\output_old{}.log");
    assert_eq!(LOG_SIZE_LIMIT, 10 * 1024 * 1024);
    assert_eq!(LOG_PATTERN, "{d:<36} {l} {t} - {m}{n}");
}

#[test]
fn menu_entries() {
    assert_eq!(menu_action("toggle_mute"), MenuAction::ToggleMute);
    assert_eq!(menu_action("quit"), MenuAction::Quit);
    assert_eq!(menu_action("launch_startup"), MenuAction::Nothing);
    assert_eq!(menu_action(""), MenuAction::Nothing);
    assert_eq!(launch_label(true), "Disable launch at startup");
    assert_eq!(launch_label(false), "Enable launch at startup");
}

#[test]
fn clicks_set_the_flags() {
    let mut application = Application::new(true, false);
    assert!(!application.should_exit());
    application.user_event("something");
    assert_eq!(application, Application::new(true, false));
    application.user_event("toggle_mute");
    assert_eq!(application, Application::new(true, true));
    application.user_event("quit");
    assert_eq!(application, Application::new(false, true));
    assert!(application.should_exit());
}

#[test]
fn failed_session_waits_before_the_next() {
    assert_eq!(restart_delay(true, true), Some(5));
    assert_eq!(restart_delay(true, false), None);
    assert_eq!(restart_delay(false, true), None);
    assert_eq!(restart_delay(false, false), None);
}

#[test]
fn settings_choose_the_sink() {
    let bridge = run_apis(create_configuration());
    assert!(matches!(bridge.listener, Sink::HomeAssistant(_)));
    assert!(bridge.teams_api.url.starts_with("ws://localhost:8124?protocol-version=2.0.0"));

    let mut conf = create_configuration();
    conf.mqtt.set_url("mqtt://broker".to_string());
    let mut bridge = run_apis(conf);
    assert!(matches!(bridge.listener, Sink::Mqtt(_)));
    let mut states = TeamsStates::new();
    assert!(matches!(bridge.listener.notify_changed(&mut states, true), SinkAction::Publish(_)));
    assert!(matches!(bridge.listener.reconnect(), SinkAction::Connect(_)));
}

fn log_name(time: &str) -> String {
    format!("{}_2024-02-07_{}.log", TEAMS_PREFIX, time)
}

#[test]
fn locate_latest_log_one_file_will_return_correct() {
    let names = vec![log_name("12-18-41.01")];
    assert_eq!(locate_latest_log(&names), Some(log_name("12-18-41.01")));
}

#[test]
fn locate_latest_log_three_files_same_day_will_return_correct() {
    let names = vec![
        log_name("12-17-41.01"),
        log_name("14-17-41.00"),
        log_name("14-16-41.00"),
        log_name("13-19-41.02"),
    ];
    assert_eq!(locate_latest_log(&names), Some(log_name("14-17-41.00")));
}

#[test]
fn locate_latest_log_passes_other_files_over() {
    let names = vec![
        "readme.txt".to_string(),
        "MSTeams_2024-02-07.txt".to_string(),
        "Teams_2025-01-01.log".to_string(),
        "MSTeams_2023-12-31_23-59-59.99.log".to_string(),
        "zzz.log".to_string(),
    ];
    assert_eq!(locate_latest_log(&names).as_deref(), Some("MSTeams_2023-12-31_23-59-59.99.log"));
    assert_eq!(locate_latest_log(&vec!["a.log".to_string()]), None);
    assert_eq!(locate_latest_log(&Vec::new()), None);
    assert!(names_teams_log("MSTeams_.log"));
    assert!(!names_teams_log("MSTeams_.lo"));
}

#[test]
fn dictionary_order() {
    assert!(comes_before("a", "b"));
    assert!(!comes_before("b", "a"));
    assert!(!comes_before("a", "a"));
    assert!(comes_before("", "a"));
    assert!(!comes_before("a", ""));
    assert!(!comes_before("", ""));
    assert!(comes_before("ab", "abc"));
    assert!(comes_before("abc", "abd"));
    assert!(comes_before("Z", "a"));
    assert!(comes_before("z", "\u{e9}"));
    let mut names = vec!["b".to_string(), "ab".to_string(), "abc".to_string(), "B".to_string()];
    names.sort();
    for pair in names.windows(2) {
        assert!(comes_before(&pair[0], &pair[1]));
    }
}

#[test]
fn last_state_is_the_last_availability() {
    let expression = status_expression().expect("a valid pattern");
    let lines = vec![
        "2024-02-07 UserPresenceAction: changed, availability: Busy, more".to_string(),
        "2024-02-07 something else".to_string(),
        "2024-02-07 UserPresenceAction: changed, availability: Available".to_string(),
        "2024-02-07 availability: Away".to_string(),
    ];
    assert_eq!(get_last_state(&expression, Some(&lines), 120), (Some("Available".to_string()), 120));
    let quiet = vec!["nothing here".to_string()];
    assert_eq!(get_last_state(&expression, Some(&quiet), 7), (None, 7));
    assert_eq!(get_last_state(&expression, Some(&Vec::new()), 9), (None, 9));
    assert_eq!(get_last_state(&expression, None, 9), (None, 0));
}

#[test]
fn watcher_follows_the_latest_log() {
    let mut watcher = Watcher::new(Some("C:\\logs\\MSTeams_a.log".to_string()));
    assert_eq!(watcher.file_position, 0);
    assert_eq!(watcher.on_changed("C:\\logs\\notes.txt", Some("notes.txt")), WatchStep::Ignore);
    assert_eq!(watcher.on_changed("C:\\logs", None), WatchStep::Ignore);
    assert_eq!(watcher.on_changed("C:\\logs\\MSTeams_a.log", Some("MSTeams_a.log")), WatchStep::Read);
    watcher.on_read(55);
    assert_eq!(watcher.file_position, 55);
    assert_eq!(
        watcher.on_changed("C:\\logs\\MSTeams_b.log", Some("MSTeams_b.log")),
        WatchStep::Locate
    );
    assert!(!watcher.on_located(Some("C:\\logs\\MSTeams_a.log".to_string())));
    assert_eq!(watcher.file_position, 55);
    assert!(watcher.on_located(Some("C:\\logs\\MSTeams_b.log".to_string())));
    assert_eq!(watcher.latest_log_file.as_deref(), Some("C:\\logs\\MSTeams_b.log"));
    assert_eq!(watcher.file_position, 0);
    assert!(watcher.on_located(None));
    assert!(!watcher.on_located(None));
    assert_eq!(
        watcher.on_changed("C:\\logs\\MSTeams_b.log", Some("MSTeams_b.log")),
        WatchStep::Locate
    );
}
