//! What a change in the log directory of the meeting client asks for.

use vstd::prelude::*;
use vstd::string::*;
use crate::teams_log::file_locator::TEAMS_PREFIX;
use crate::utils::option_str;
use crate::utils::option_text;
use crate::utils::same_text;
use crate::utils::starts_with;

verus! {

/// What is to be done about a change.
#[derive(Clone, Copy, Debug, PartialEq, Eq, Structural)]
pub enum WatchStep {
    /// The change is none of a log file; nothing.
    Ignore,
    /// The latest log file changed; read what was added.
    Read,
    /// Another log file changed; find the latest log file anew, then read.
    Locate,
}

/// The log file that is followed, and how far it has been read.
pub struct Watcher {
    pub latest_log_file: Option<String>,
    pub file_position: u64,
}

/// `Watcher` with its text as a sequence of characters.
pub struct WatcherView {
    pub latest_log_file: Option<Seq<char>>,
    pub file_position: u64,
}

impl View for Watcher {
    type V = WatcherView;

    open spec fn view(&self) -> WatcherView {
        WatcherView {
            latest_log_file: option_text(self.latest_log_file),
            file_position: self.file_position,
        }
    }
}

/// What a change of a file asks for: nothing unless the file's name is
/// that of a file of the meeting client; a new search where the file is not
/// the one followed.
pub open spec fn step_for(latest: Option<Seq<char>>, path: Seq<char>, name: Option<Seq<char>>) -> WatchStep {
    match name {
        Some(file_name) => if TEAMS_PREFIX@.is_prefix_of(file_name) {
            if latest == Some(path) {
                WatchStep::Read
            } else {
                WatchStep::Locate
            }
        } else {
            WatchStep::Ignore
        },
        None => WatchStep::Ignore,
    }
}

impl Watcher {
    /// A watcher that follows the given log file from its start.
    pub fn new(latest_log_file: Option<String>) -> (watcher: Watcher)
        ensures
            watcher@ == (WatcherView {
                latest_log_file: option_text(latest_log_file),
                file_position: 0,
            }),
    {
        Watcher { latest_log_file, file_position: 0 }
    }

    /// Decides what a change of the file at `path`, with the file name
    /// `name`, asks for.
    pub fn on_changed(&self, path: &str, name: Option<&str>) -> (step: WatchStep)
        ensures
            step == step_for(self@.latest_log_file, path@, option_str(name)),
    {
        match name {
            Some(file_name) => {
                if starts_with(file_name, TEAMS_PREFIX) {
                    let followed = match &self.latest_log_file {
                        Some(latest) => same_text(latest.as_str(), path),
                        None => false,
                    };
                    if followed {
                        WatchStep::Read
                    } else {
                        WatchStep::Locate
                    }
                } else {
                    WatchStep::Ignore
                }
            },
            None => WatchStep::Ignore,
        }
    }

    /// Takes the latest log file that a new search found. Returns whether
    /// it is another than the one followed; the watcher then follows it
    /// from its start.
    pub fn on_located(&mut self, found: Option<String>) -> (switched: bool)
        ensures
            switched == (option_text(found) != old(self)@.latest_log_file),
            final(self)@ == if switched {
                WatcherView { latest_log_file: option_text(found), file_position: 0 }
            } else {
                old(self)@
            },
    {
        let same = match (&self.latest_log_file, &found) {
            (Some(latest), Some(other)) => same_text(latest.as_str(), other.as_str()),
            (None, None) => true,
            _ => false,
        };
        if same {
            false
        } else {
            self.latest_log_file = found;
            self.file_position = 0;
            true
        }
    }

    /// Records how far the log file has been read.
    pub fn on_read(&mut self, position: u64)
        ensures
            final(self)@ == (WatcherView { file_position: position, ..old(self)@ }),
    {
        self.file_position = position;
    }
}

} // verus!
