//! Configuration of the server.

use vstd::prelude::*;

verus! {

/// Application configuration, normally loaded from environment variables.
#[derive(Debug, Clone)]
pub struct Config {
    /// HTTP host to bind to (default: 0.0.0.0).
    pub host: String,
    /// HTTP port to bind to (default: 8888).
    pub port: u16,
    /// Base URL for Open-Meteo API (default: https://api.open-meteo.com).
    pub api_base: String,
    /// HTTP request timeout in seconds (default: 30).
    pub timeout_secs: u64,
    /// Log level (default: info).
    pub log_level: Option<String>,
    /// Transport mode: "stdio" or "sse" (default: stdio).
    pub transport: String,
}

/// The default HTTP host.
pub fn default_host() -> (s: String)
    ensures
        s@ == "0.0.0.0"@,
{
    String::from_str("0.0.0.0")
}

/// The default HTTP port.
pub fn default_port() -> (p: u16)
    ensures
        p == 8888,
{
    8888
}

/// The default base URL of the Open-Meteo API.
pub fn default_api_base() -> (s: String)
    ensures
        s@ == "https://api.open-meteo.com"@,
{
    String::from_str("https://api.open-meteo.com")
}

/// The default request timeout in seconds.
pub fn default_timeout() -> (t: u64)
    ensures
        t == 30,
{
    30
}

/// The default transport mode.
pub fn default_transport() -> (s: String)
    ensures
        s@ == "stdio"@,
{
    String::from_str("stdio")
}

/// The default log level: `info`.
pub fn default_log_level() -> (l: Option<String>)
    ensures
        l matches Some(level) && level@ == "info"@,
{
    Some(String::from_str("info"))
}

/// `c` holds the default settings: host 0.0.0.0, port 8888, the public
/// Open-Meteo API, a 30 s timeout, log level `info`, STDIO transport.
pub open spec fn is_default_config(c: Config) -> bool {
    &&& c.host@ == "0.0.0.0"@
    &&& c.port == 8888
    &&& c.api_base@ == "https://api.open-meteo.com"@
    &&& c.timeout_secs == 30
    &&& c.log_level matches Some(level) && level@ == "info"@
    &&& c.transport@ == "stdio"@
}

impl Default for Config {
    fn default() -> (c: Self)
        ensures
            is_default_config(c),
    {
        Config {
            host: default_host(),
            port: default_port(),
            api_base: default_api_base(),
            timeout_secs: default_timeout(),
            log_level: default_log_level(),
            transport: default_transport(),
        }
    }
}

impl Config {
    /// The configuration read from the environment, or the defaults where it
    /// could not be read (`loaded` is `None`).
    pub fn from_env_or_default(loaded: Option<Config>) -> (c: Self)
        ensures
            loaded matches Some(l) ==> c == l,
            loaded is None ==> is_default_config(c),
    {
        match loaded {
            Some(c) => c,
            None => Config::default(),
        }
    }
}

} // verus!
