//! Configuration of the service, and the values that apply where a setting
//! is absent.

use vstd::prelude::*;
use vstd::string::StringExecFns;

verus! {

/// The port the service listens on where none is configured.
pub const DEFAULT_PORT: u16 = 3000;

/// The lifetime of a cache entry, in seconds, where none is configured.
pub const DEFAULT_CACHE_LIFETIME: i64 = 3600;

/// How long a lookup waits for a store, in seconds, before the store counts
/// as failed. Neither store is waited for without a limit: the point of
/// asking both at once is that a slow one cannot hold up the other.
pub const STORE_TIMEOUT_SECONDS: u64 = 5;

/// The whole configuration.
#[derive(Clone, Debug, PartialEq, Eq)]
pub struct Config {
    pub logs: LogsConfig,
    pub server: ServerConfig,
    pub cache: CacheConfig,
}

/// Settings of the cache.
#[derive(Clone, Debug, PartialEq, Eq)]
pub struct CacheConfig {
    /// Lifetime of a cache entry, in seconds.
    pub lifetime: Option<i64>,
}

/// Settings of the server and of its two stores.
#[derive(Clone, Debug, PartialEq, Eq)]
pub struct ServerConfig {
    /// Name of the service, shown as the title of its pages.
    pub name: Option<String>,
    /// Port to listen on.
    pub port: Option<u16>,
    /// Connection string of the persistent store.
    pub database: Option<String>,
    /// Connection string of the cache.
    pub redis: Option<String>,
}

/// Settings of the log.
#[derive(Clone, Debug, PartialEq, Eq)]
pub struct LogsConfig {
    /// Whether to log at trace level.
    pub debug: bool,
    /// Format of the timestamps.
    pub time_format: Option<String>,
    /// Folder of the log file.
    pub folder: Option<String>,
}

/// The text of an optional setting, or `fallback` where it is absent.
pub open spec fn text_or(setting: Option<String>, fallback: Seq<char>) -> Seq<char> {
    match setting {
        Some(text) => text@,
        None => fallback,
    }
}

impl Default for CacheConfig {
    fn default() -> (config: CacheConfig)
        ensures
            config.lifetime is None,
    {
        CacheConfig { lifetime: None }
    }
}

impl Default for ServerConfig {
    fn default() -> (config: ServerConfig)
        ensures
            config.name is None,
            config.port is None,
            config.database is None,
            config.redis is None,
    {
        ServerConfig { name: None, port: None, database: None, redis: None }
    }
}

impl Default for LogsConfig {
    fn default() -> (config: LogsConfig)
        ensures
            !config.debug,
            config.time_format is None,
            config.folder is None,
    {
        LogsConfig { debug: false, time_format: None, folder: None }
    }
}

impl Default for Config {
    fn default() -> (config: Config)
        ensures
            !config.logs.debug,
            config.logs.time_format is None,
            config.logs.folder is None,
            config.server.name is None,
            config.server.port is None,
            config.server.database is None,
            config.server.redis is None,
            config.cache.lifetime is None,
    {
        Config {
            logs: LogsConfig { debug: false, time_format: None, folder: None },
            server: ServerConfig { name: None, port: None, database: None, redis: None },
            cache: CacheConfig { lifetime: None },
        }
    }
}

impl CacheConfig {
    /// The lifetime of a cache entry, in seconds.
    pub fn lifetime_or_default(&self) -> (seconds: i64)
        ensures
            seconds == match self.lifetime {
                Some(configured) => configured,
                None => DEFAULT_CACHE_LIFETIME,
            },
    {
        match self.lifetime {
            Some(configured) => configured,
            None => DEFAULT_CACHE_LIFETIME,
        }
    }
}

impl ServerConfig {
    /// The port to listen on.
    pub fn port_or_default(&self) -> (port: u16)
        ensures
            port == match self.port {
                Some(configured) => configured,
                None => DEFAULT_PORT,
            },
    {
        match self.port {
            Some(configured) => configured,
            None => DEFAULT_PORT,
        }
    }

    /// The name of the service.
    pub fn name_or_default(&self) -> (name: String)
        ensures
            name@ == text_or(self.name, "sh.rs"@),
    {
        match &self.name {
            Some(configured) => configured.clone(),
            None => String::from_str("sh.rs"),
        }
    }

    /// The connection string of the persistent store: the configured one,
    /// else the one the environment provides, else none.
    pub fn database_url(&self, environment: Option<String>) -> (url: Option<String>)
        ensures
            url is None <==> self.database is None && environment is None,
            url matches Some(text) ==> text@ == match self.database {
                Some(configured) => configured@,
                None => environment->Some_0@,
            },
    {
        match &self.database {
            Some(configured) => Some(configured.clone()),
            None => environment,
        }
    }

    /// The connection string of the cache: the configured one, else the one
    /// the environment provides, else none.
    pub fn redis_url(&self, environment: Option<String>) -> (url: Option<String>)
        ensures
            url is None <==> self.redis is None && environment is None,
            url matches Some(text) ==> text@ == match self.redis {
                Some(configured) => configured@,
                None => environment->Some_0@,
            },
    {
        match &self.redis {
            Some(configured) => Some(configured.clone()),
            None => environment,
        }
    }
}

impl LogsConfig {
    /// The filter directive of the log: trace level when debugging, info
    /// level otherwise.
    pub fn filter_directive(&self) -> (directive: &'static str)
        ensures
            directive@ == if self.debug {
                "server=trace"@
            } else {
                "server=info"@
            },
    {
        if self.debug {
            "server=trace"
        } else {
            "server=info"
        }
    }

    /// The format of the timestamps.
    pub fn time_format_or_default(&self) -> (format: String)
        ensures
            format@ == text_or(self.time_format, "[year]-[month]-[day] [hour]:[minute]:[second]"@),
    {
        match &self.time_format {
            Some(configured) => configured.clone(),
            None => String::from_str("[year]-[month]-[day] [hour]:[minute]:[second]"),
        }
    }
}

} // verus!
