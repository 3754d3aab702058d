//! The settings that the service starts with.

use vstd::prelude::*;
use crate::text::owned;

verus! {

/// Where the service listens, and where its database is.
#[derive(Clone, Debug, PartialEq, Eq)]
pub struct AppConfig {
    pub bind_addr: String,
    pub database_url: String,
}

/// Why the settings are incomplete.
#[derive(Clone, Copy, Debug, PartialEq, Eq, Structural)]
pub enum ConfigError {
    /// No database is named.
    DatabaseUrlMissing,
}

/// The most database connections that the service keeps open.
pub const MAX_CONNECTIONS: u32 = 5;

/// Seconds that a request waits for a database connection.
pub const ACQUIRE_TIMEOUT_SECS: u64 = 5;

impl ConfigError {
    /// The failure in words.
    pub fn message(&self) -> (r: String)
        ensures
            r@ == "DATABASE_URL missing"@,
    {
        owned("DATABASE_URL missing")
    }
}

impl AppConfig {
    /// The settings, from the values of `BIND_ADDR` and `DATABASE_URL`. The
    /// service listens on every address at port 8000 unless told otherwise;
    /// the database must be named.
    pub fn from_vars(bind_addr: Option<String>, database_url: Option<String>) -> (r: Result<AppConfig, ConfigError>)
        ensures
            match database_url {
                Some(url) => r matches Ok(config) && config.database_url == url && config.bind_addr@
                    == match bind_addr {
                    Some(addr) => addr@,
                    None => "0.0.0.0:8000"@,
                },
                None => r == Err::<AppConfig, ConfigError>(ConfigError::DatabaseUrlMissing),
            },
    {
        let addr = match bind_addr {
            Some(addr) => addr,
            None => owned("0.0.0.0:8000"),
        };
        match database_url {
            Some(url) => Ok(AppConfig { bind_addr: addr, database_url: url }),
            None => Err(ConfigError::DatabaseUrlMissing),
        }
    }
}

} // verus!
