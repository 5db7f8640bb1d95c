//! The configuration that is kept between runs, and how a request to start
//! polling changes it.

use vstd::prelude::*;

verus! {

/// The directory of the configuration file, below the user's configuration
/// directory.
pub const CONFIG_DIR_NAME: &'static str = "ClaudeUsageMonitor";

/// The name of the configuration file. Without a configuration directory the
/// file of this name in the working directory is used.
pub const CONFIG_FILE_NAME: &'static str = "config.json";

/// What is kept between runs.
#[derive(Debug, Clone, Copy, PartialEq, Eq, Structural)]
pub struct AppConfig {
    pub polling_interval_secs: u64,
    pub start_on_login: bool,
}

/// What a request to start polling comes to.
#[derive(Debug, Clone, Copy, PartialEq, Eq, Structural)]
pub struct StartRequest {
    /// The interval to start with, in seconds.
    pub interval_secs: u64,
    /// The configuration to write back, where the request changes it.
    pub persist: Option<AppConfig>,
}

impl Default for AppConfig {
    /// Five minutes between polls, and no start on login.
    fn default() -> (c: AppConfig)
        ensures
            c.polling_interval_secs == 300,
            !c.start_on_login,
    {
        AppConfig { polling_interval_secs: 300, start_on_login: false }
    }
}

impl AppConfig {
    /// Settles the interval of a start. An interval that is asked for is used
    /// and written back into the configuration; without one the configured
    /// interval is used and nothing is written.
    pub fn start_request(&self, requested: Option<u64>) -> (r: StartRequest)
        ensures
            requested matches Some(i) ==> r.interval_secs == i && r.persist == Some(
                AppConfig { polling_interval_secs: i, start_on_login: self.start_on_login },
            ),
            requested is None ==> r.interval_secs == self.polling_interval_secs && r.persist is None,
    {
        match requested {
            Some(i) => StartRequest {
                interval_secs: i,
                persist: Some(
                    AppConfig { polling_interval_secs: i, start_on_login: self.start_on_login },
                ),
            },
            None => StartRequest { interval_secs: self.polling_interval_secs, persist: None },
        }
    }
}

} // verus!
