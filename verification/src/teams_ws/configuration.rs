//! Where the meeting client listens, and the token it issued.

use vstd::prelude::*;
use vstd::string::*;

verus! {

/// Section of the configuration that holds the upstream settings.
pub const TEAMS: &'static str = "Teams";

/// Key of the upstream address.
pub const TEAMS_URL: &'static str = "URL";

/// Key of the upstream API token.
pub const TEAMS_API_TOKEN: &'static str = "API Token";

/// The upstream settings.
pub struct TeamsConfiguration {
    pub url: String,
    pub api_token: String,
}

/// The upstream settings with their text as sequences of characters.
pub struct TeamsConfigurationView {
    pub url: Seq<char>,
    pub api_token: Seq<char>,
}

impl View for TeamsConfiguration {
    type V = TeamsConfigurationView;

    open spec fn view(&self) -> TeamsConfigurationView {
        TeamsConfigurationView { url: self.url@, api_token: self.api_token@ }
    }
}

/// The settings of a fresh installation: the local client, no token.
pub open spec fn default_teams_configuration() -> TeamsConfigurationView {
    TeamsConfigurationView { url: "ws://localhost:8124"@, api_token: ""@ }
}

/// The settings of a fresh installation.
pub fn create_teams_configuration() -> (conf: TeamsConfiguration)
    ensures
        conf@ == default_teams_configuration(),
{
    TeamsConfiguration {
        url: String::from_str("ws://localhost:8124"),
        api_token: String::from_str(""),
    }
}

/// Puts a value into a settings file, under a section and a key, in place
/// of any the key had.
pub fn change_teams_configuration(file: &mut ini::Ini, section: &str, key: &str, value: &str)
    ensures
        crate::settings::values(*final(file)) == crate::settings::values(*old(file)).insert(
            (Some(section@), key@),
            value@,
        ),
{
    crate::settings::set_value(file, section, key, value);
}

/// Puts a token that the meeting client issued into a settings file, as
/// the upstream API token.
pub fn persist_token(file: &mut ini::Ini, token: &str)
    ensures
        crate::settings::values(*final(file)) == crate::settings::values(*old(file)).insert(
            (Some(TEAMS@), TEAMS_API_TOKEN@),
            token@,
        ),
{
    change_teams_configuration(file, TEAMS, TEAMS_API_TOKEN, token);
}

} // verus!
