//! The tray menu: its entries, and what a click on one asks for.

use vstd::prelude::*;
use crate::utils::same_text;

verus! {

/// Identifier of the entry that toggles the microphone.
pub const MENU_TOGGLE_MUTE: &'static str = "toggle_mute";

/// Identifier of the entry that ends the bridge.
pub const MENU_QUIT: &'static str = "quit";

/// Identifier of the entry that switches the launch at startup.
pub const MENU_LAUNCH_STARTUP: &'static str = "launch_startup";

/// The name of the bridge in the tray and among the startup programs.
pub const APP_NAME: &'static str = "Teams Status";

/// Label of the launch entry while the bridge is launched at startup.
pub const LABEL_DISABLE_LAUNCH: &'static str = "Disable launch at startup";

/// Label of the launch entry while it is not.
pub const LABEL_ENABLE_LAUNCH: &'static str = "Enable launch at startup";

/// The label of the launch entry.
pub fn launch_label(launch_enabled: bool) -> (label: &'static str)
    ensures
        label@ == if launch_enabled {
            LABEL_DISABLE_LAUNCH@
        } else {
            LABEL_ENABLE_LAUNCH@
        },
{
    if launch_enabled {
        LABEL_DISABLE_LAUNCH
    } else {
        LABEL_ENABLE_LAUNCH
    }
}

/// What a click on a menu entry asks for.
#[derive(Clone, Copy, Debug, PartialEq, Eq, Structural)]
pub enum MenuAction {
    /// Ask the meeting client to toggle the microphone.
    ToggleMute,
    /// End the bridge.
    Quit,
    /// Nothing.
    Nothing,
}

/// What the entry with an identifier asks for.
pub open spec fn menu_action_of(id: Seq<char>) -> MenuAction {
    if id == MENU_TOGGLE_MUTE@ {
        MenuAction::ToggleMute
    } else if id == MENU_QUIT@ {
        MenuAction::Quit
    } else {
        MenuAction::Nothing
    }
}

/// Reads a click on the menu entry with the given identifier.
pub fn menu_action(id: &str) -> (action: MenuAction)
    ensures
        action == menu_action_of(id@),
{
    if same_text(id, MENU_TOGGLE_MUTE) {
        MenuAction::ToggleMute
    } else if same_text(id, MENU_QUIT) {
        MenuAction::Quit
    } else {
        MenuAction::Nothing
    }
}

/// The flags that the tray and the session share.
#[derive(Clone, Copy, Debug, PartialEq, Eq, Structural)]
pub struct Application {
    /// Cleared to end the bridge.
    pub is_running: bool,
    /// Set to ask for a toggle of the microphone.
    pub toggle_mute: bool,
}

impl Application {
    /// The flags of a bridge.
    pub fn new(is_running: bool, toggle_mute: bool) -> (application: Application)
        ensures
            application == (Application { is_running, toggle_mute }),
    {
        Application { is_running, toggle_mute }
    }

    /// Takes a click on a menu entry: the mute entry sets the mute request,
    /// the quit entry clears the run flag, any other changes nothing.
    pub fn user_event(&mut self, id: &str)
        ensures
            *final(self) == match menu_action_of(id@) {
                MenuAction::ToggleMute => Application { toggle_mute: true, ..*old(self) },
                MenuAction::Quit => Application { is_running: false, ..*old(self) },
                MenuAction::Nothing => *old(self),
            },
    {
        let flags = *self;
        match menu_action(id) {
            MenuAction::ToggleMute => {
                *self = Application { toggle_mute: true, ..flags };
            },
            MenuAction::Quit => {
                *self = Application { is_running: false, ..flags };
            },
            MenuAction::Nothing => {},
        }
    }

    /// Whether the event loop has to end: once the run flag is cleared.
    pub fn should_exit(&self) -> (exit: bool)
        ensures
            exit == !self.is_running,
    {
        !self.is_running
    }
}

/// Seconds to wait before a session that failed is started again.
pub const RESTART_DELAY_SECS: u64 = 5;

/// What follows a session: how long to wait before the next, or `None`
/// where the next starts at once or the bridge ends. A session that failed
/// is followed by a wait while the bridge runs.
pub fn restart_delay(session_failed: bool, is_running: bool) -> (delay: Option<u64>)
    ensures
        delay == if session_failed && is_running {
            Some(RESTART_DELAY_SECS)
        } else {
            None
        },
{
    if session_failed && is_running {
        Some(RESTART_DELAY_SECS)
    } else {
        None
    }
}

} // verus!
