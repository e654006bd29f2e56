//! Configuration records for the whole service.
//!
//! Durations are carried as whole milliseconds so that the timing rules
//! of the aggregator and of the cache client can be reasoned about as
//! plain integers.  The embedding binary parses its configuration file
//! and converts into these records.

use vstd::prelude::*;

verus! {

/// Connection settings for the streaming document database.
#[derive(Debug, Clone)]
pub struct DatabaseConfig {
    /// Websocket URL of the document store.
    pub dsn: String,
    /// Root user name.
    pub username: String,
    /// Root password.
    pub password: String,
    /// Namespace selected after signing in.
    pub namespace: String,
    /// Database selected after signing in.
    pub database: String,
}

/// Connection and retry settings for the shared cache.
#[derive(Debug, Clone)]
pub struct CacheConfig {
    /// URL of the cache service.
    pub dsn: String,
    /// Cadence of periodic cache synchronisation, in milliseconds.
    pub sync_interval_millis: u64,
    /// Budget for establishing a connection, in milliseconds.
    pub connection_timeout_millis: u64,
    /// Budget for one command round-trip, in milliseconds.
    pub response_timeout_millis: u64,
    /// How many times a failed command is retried before giving up.
    pub number_of_retries: usize,
    /// Upper bound on the delay between retries, in milliseconds.
    pub max_delay_between_retries_millis: u64,
    /// Base of the exponential backoff between retries, in milliseconds.
    pub delay_exponent_base_millis: u64,
}

/// Bind address of the websocket broadcaster.
#[derive(Debug, Clone)]
pub struct ServerConfig {
    /// Host or address to listen on.
    pub host: String,
    /// TCP port to listen on.
    pub port: u16,
}

/// Tuning of the burst-smoothing policy.
#[derive(Debug, Clone)]
pub struct BurstConfig {
    /// Cadence of flush ticks, in milliseconds.
    pub sync_interval_millis: u64,
    /// Length of the burst window, in milliseconds.
    pub expire_millis: u64,
}

/// The whole service configuration.
#[derive(Debug, Clone)]
pub struct Config {
    /// Verbose logging when set.
    pub debug: bool,
    pub database: DatabaseConfig,
    pub cache: CacheConfig,
    pub server: ServerConfig,
    pub burst: BurstConfig,
}

} // verus!
