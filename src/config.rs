use vstd::prelude::*;

verus! {

/// Seconds between two polls when none is configured.
pub const DEFAULT_POLL_INTERVAL_SECS: u64 = 5;

/// Address the exposition endpoint listens on when none is configured.
pub const DEFAULT_LISTEN_ADDRESS: &'static str = "127.0.0.1:3030";

/// Why the bridge cannot start.
#[derive(Clone, Debug, PartialEq, Eq)]
pub enum ConfigError {
    /// The poll interval was zero seconds; a tick needs at least one.
    ZeroPollInterval,
    /// The bearer-token file could not be read; the text gives the cause.
    TokenFile(String),
    /// The listen address is not a socket address; the text gives it.
    ListenAddress(String),
}

/// The settings the bridge runs with, fixed once it has started.
#[derive(Clone, Debug)]
pub struct Config {
    /// Seconds between two polls, at least one.
    pub poll_interval_secs: u64,
    /// Host and port of the game server, `host:port`.
    pub endpoint: String,
    /// Contents of the bearer-token file, untrimmed, if one was given.
    pub bearer_token: Option<String>,
    /// Whether the server's TLS certificate is accepted without validation.
    pub allow_insecure: bool,
    /// Address the exposition endpoint listens on.
    pub listen: String,
}

impl Config {
    /// Gathers the settings, refusing a poll interval of zero seconds.
    pub fn new(
        poll_interval_secs: u64,
        endpoint: String,
        bearer_token: Option<String>,
        allow_insecure: bool,
        listen: String,
    ) -> (r: Result<Config, ConfigError>)
        ensures
            r is Err <==> poll_interval_secs == 0,
            r is Err ==> r->Err_0 == ConfigError::ZeroPollInterval,
            r is Ok ==> (r->Ok_0 == Config {
                poll_interval_secs,
                endpoint,
                bearer_token,
                allow_insecure,
                listen,
            }),
    {
        if poll_interval_secs == 0 {
            Err(ConfigError::ZeroPollInterval)
        } else {
            Ok(Config { poll_interval_secs, endpoint, bearer_token, allow_insecure, listen })
        }
    }
}

} // verus!
