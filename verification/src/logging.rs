//! Where the bridge writes its log.

use vstd::prelude::*;
use vstd::string::*;

verus! {

/// The directory of the bridge below the user's local application data.
pub const LOG_FOLDER: &'static str = "\\teams-status-rs";

/// The log file, below the log directory.
pub const LOG_FILE: &'static str = "\\output.log";

/// The pattern of the rolled log files, below the log directory.
pub const OLD_LOG_FILE: &'static str = "\\output_old{}.log";

/// The layout of a log line.
pub const LOG_PATTERN: &'static str = "{d:<36} {l} {t} - {m}{n}";

/// Bytes after which the log file is rolled.
pub const LOG_SIZE_LIMIT: u64 = 10485760;

/// Rolled log files that are kept.
pub const LOG_ROLL_COUNT: u32 = 1;

/// Name of the appender.
pub const LOG_APPENDER: &'static str = "logfile";

/// Where the log goes.
pub struct LogPaths {
    pub directory: String,
    pub log_path: String,
    pub old_log_path: String,
}

/// `LogPaths` with its text as sequences of characters.
pub struct LogPathsView {
    pub directory: Seq<char>,
    pub log_path: Seq<char>,
    pub old_log_path: Seq<char>,
}

impl View for LogPaths {
    type V = LogPathsView;

    open spec fn view(&self) -> LogPathsView {
        LogPathsView {
            directory: self.directory@,
            log_path: self.log_path@,
            old_log_path: self.old_log_path@,
        }
    }
}

/// The log directory: the bridge's own below the local application data,
/// or the working directory where the system names none.
pub open spec fn log_directory(local_app_data: Option<Seq<char>>) -> Seq<char> {
    match local_app_data {
        Some(root) => root + LOG_FOLDER@,
        None => "."@,
    }
}

/// The paths of the log for a log directory.
pub open spec fn log_paths_of(local_app_data: Option<Seq<char>>) -> LogPathsView {
    let directory = log_directory(local_app_data);
    LogPathsView {
        directory,
        log_path: directory + LOG_FILE@,
        old_log_path: directory + OLD_LOG_FILE@,
    }
}

/// Works out where the log goes, from the system's directory for local
/// application data.
pub fn log_paths(local_app_data: Option<&str>) -> (paths: LogPaths)
    ensures
        paths@ == log_paths_of(crate::utils::option_str(local_app_data)),
{
    let directory = match local_app_data {
        Some(root) => {
            let mut directory = String::from_str(root);
            directory.append(LOG_FOLDER);
            directory
        },
        None => String::from_str("."),
    };
    let mut log_path = directory.clone();
    log_path.append(LOG_FILE);
    let mut old_log_path = directory.clone();
    old_log_path.append(OLD_LOG_FILE);
    LogPaths { directory, log_path, old_log_path }
}

} // verus!
