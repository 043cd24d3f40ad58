//! The settings of the service.

use vstd::prelude::*;
use crate::text::{parse_decimal, unsigned_decimal};

verus! {

#[derive(Clone, Debug)]
pub struct Config {
    pub database_url: String,
    pub server_host: String,
    pub server_port: u16,
    pub scraper_rate_limit: u32,
    pub scraper_max_retries: u32,
}

/// Why the settings could not be read.
#[derive(Clone, Copy, Debug, PartialEq, Eq, Structural)]
pub enum ConfigError {
    /// `DATABASE_URL` is not set.
    MissingDatabaseUrl,
    /// `SERVER_PORT` is no port number.
    InvalidPort,
    /// `SCRAPER_RATE_LIMIT` is no number.
    InvalidRateLimit,
    /// `SCRAPER_MAX_RETRIES` is no number.
    InvalidMaxRetries,
}

pub const DEFAULT_PORT: u16 = 3001;

pub const DEFAULT_RATE_LIMIT: u32 = 2;

pub const DEFAULT_MAX_RETRIES: u32 = 3;

/// The number that a setting holds: its default where it is not set, the
/// unsigned decimal number it spells where that is at most `max`, none
/// otherwise.
pub open spec fn setting_value(text: Option<String>, default: u64, max: u64) -> Option<u64> {
    match text {
        None => Some(default),
        Some(s) => match unsigned_decimal(s@) {
            Some(n) if n <= max => Some(n as u64),
            _ => None,
        },
    }
}

fn read_setting(text: &Option<String>, default: u64, max: u64) -> (r: Option<u64>)
    ensures
        r == setting_value(*text, default, max),
{
    match text {
        None => Some(default),
        Some(s) => match parse_decimal(s.as_str()) {
            Some(n) => if n <= max {
                Some(n)
            } else {
                None
            },
            None => None,
        },
    }
}

impl Config {
    /// The settings that the given values of `DATABASE_URL`, `SERVER_HOST`,
    /// `SERVER_PORT`, `SCRAPER_RATE_LIMIT` and `SCRAPER_MAX_RETRIES` make,
    /// each `None` where the variable is not set. The first setting at fault,
    /// in this order, decides the error.
    pub fn from_values(
        database_url: Option<String>,
        server_host: Option<String>,
        server_port: Option<String>,
        scraper_rate_limit: Option<String>,
        scraper_max_retries: Option<String>,
    ) -> (r: Result<Config, ConfigError>)
        ensures
            match r {
                Ok(config) => {
                    &&& database_url == Some(config.database_url)
                    &&& config.server_host@ == match server_host {
                        Some(host) => host@,
                        None => "127.0.0.1"@,
                    }
                    &&& setting_value(server_port, DEFAULT_PORT as u64, u16::MAX as u64) == Some(
                        config.server_port as u64,
                    )
                    &&& setting_value(scraper_rate_limit, DEFAULT_RATE_LIMIT as u64, u32::MAX as u64)
                        == Some(config.scraper_rate_limit as u64)
                    &&& setting_value(
                        scraper_max_retries,
                        DEFAULT_MAX_RETRIES as u64,
                        u32::MAX as u64,
                    ) == Some(config.scraper_max_retries as u64)
                },
                Err(ConfigError::MissingDatabaseUrl) => database_url is None,
                Err(ConfigError::InvalidPort) => database_url is Some && setting_value(
                    server_port,
                    DEFAULT_PORT as u64,
                    u16::MAX as u64,
                ) is None,
                Err(ConfigError::InvalidRateLimit) => database_url is Some && setting_value(
                    server_port,
                    DEFAULT_PORT as u64,
                    u16::MAX as u64,
                ) is Some && setting_value(
                    scraper_rate_limit,
                    DEFAULT_RATE_LIMIT as u64,
                    u32::MAX as u64,
                ) is None,
                Err(ConfigError::InvalidMaxRetries) => database_url is Some && setting_value(
                    server_port,
                    DEFAULT_PORT as u64,
                    u16::MAX as u64,
                ) is Some && setting_value(
                    scraper_rate_limit,
                    DEFAULT_RATE_LIMIT as u64,
                    u32::MAX as u64,
                ) is Some && setting_value(
                    scraper_max_retries,
                    DEFAULT_MAX_RETRIES as u64,
                    u32::MAX as u64,
                ) is None,
            },
    {
        let database_url = match database_url {
            Some(url) => url,
            None => {
                return Err(ConfigError::MissingDatabaseUrl);
            },
        };
        let server_host = match server_host {
            Some(host) => host,
            None => String::from_str("127.0.0.1"),
        };
        let server_port = match read_setting(&server_port, DEFAULT_PORT as u64, u16::MAX as u64) {
            Some(port) => port as u16,
            None => {
                return Err(ConfigError::InvalidPort);
            },
        };
        let scraper_rate_limit = match read_setting(
            &scraper_rate_limit,
            DEFAULT_RATE_LIMIT as u64,
            u32::MAX as u64,
        ) {
            Some(limit) => limit as u32,
            None => {
                return Err(ConfigError::InvalidRateLimit);
            },
        };
        let scraper_max_retries = match read_setting(
            &scraper_max_retries,
            DEFAULT_MAX_RETRIES as u64,
            u32::MAX as u64,
        ) {
            Some(retries) => retries as u32,
            None => {
                return Err(ConfigError::InvalidMaxRetries);
            },
        };
        Ok(Config { database_url, server_host, server_port, scraper_rate_limit, scraper_max_retries })
    }
}

} // verus!
