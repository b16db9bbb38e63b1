//! Application configuration: polling cadence and connection settings.
//! Reading the configuration file is the caller's business; the library
//! only fixes the record and its defaults.

use vstd::prelude::*;

verus! {

/// Settings for one session: how often to poll, when to give up, and the
/// optional host and credential that override the defaults.
#[derive(Debug, Clone, PartialEq)]
pub struct AppConfig {
    pub poll_interval_secs: u64,
    pub poll_timeout_secs: u64,
    pub gitlab_host: Option<String>,
    pub gitlab_token: Option<String>,
}

impl Default for AppConfig {
    /// The defaults: poll every 30 seconds, stop polling after 30 minutes,
    /// no host or credential override.
    fn default() -> (c: AppConfig)
        ensures
            c.poll_interval_secs == 30,
            c.poll_timeout_secs == 1800,
            c.gitlab_host is None,
            c.gitlab_token is None,
    {
        AppConfig {
            poll_interval_secs: 30,
            poll_timeout_secs: 1800,
            gitlab_host: None,
            gitlab_token: None,
        }
    }
}

} // verus!
