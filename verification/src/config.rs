//! Startup configuration: the four values the updater needs, read once
//! from the process environment by the caller and validated here.
//!
//! Missing any value is fatal at startup: validation reports the first
//! missing value, checked in a fixed order, and the process is expected
//! to exit before making any network call.

use vstd::prelude::*;

verus! {

/// The immutable process configuration: an API token for the DNS
/// provider, the zone to update, and one record identifier per address
/// family.
pub struct Config {
    pub api_token: String,
    pub zone_id: String,
    pub record_v4_id: String,
    pub record_v6_id: String,
}

/// A missing configuration value, named after the environment variable
/// that should have supplied it.
#[derive(Clone, Copy, PartialEq, Eq, Structural, Debug)]
pub enum ConfigError {
    MissingApiToken,
    MissingZoneId,
    MissingRecordV4Id,
    MissingRecordV6Id,
}

impl ConfigError {
    /// The name of the environment variable whose value was missing.
    pub fn variable_name(&self) -> (r: String)
        ensures
            r@ == (match self {
                ConfigError::MissingApiToken => "CLOUDFLARE_API_TOKEN"@,
                ConfigError::MissingZoneId => "CLOUDFLARE_ZONE_ID"@,
                ConfigError::MissingRecordV4Id => "CLOUDFLARE_RECORD_V4_ID"@,
                ConfigError::MissingRecordV6Id => "CLOUDFLARE_RECORD_V6_ID"@,
            }),
    {
        match self {
            ConfigError::MissingApiToken => String::from_str("CLOUDFLARE_API_TOKEN"),
            ConfigError::MissingZoneId => String::from_str("CLOUDFLARE_ZONE_ID"),
            ConfigError::MissingRecordV4Id => String::from_str("CLOUDFLARE_RECORD_V4_ID"),
            ConfigError::MissingRecordV6Id => String::from_str("CLOUDFLARE_RECORD_V6_ID"),
        }
    }
}

impl Config {
    /// Validates the four environment values, in the order the process
    /// reads them, and reports the first one that is missing. Succeeds
    /// exactly when all four are present.
    pub fn from_values(
        api_token: Option<String>,
        zone_id: Option<String>,
        record_v4_id: Option<String>,
        record_v6_id: Option<String>,
    ) -> (r: Result<Config, ConfigError>)
        ensures
            (r is Ok) <==> (api_token is Some && zone_id is Some && record_v4_id is Some
                && record_v6_id is Some),
            (r == Result::<Config, ConfigError>::Err(ConfigError::MissingApiToken)) <==> (
            api_token is None),
            (r == Result::<Config, ConfigError>::Err(ConfigError::MissingZoneId)) <==> (
            api_token is Some && zone_id is None),
            (r == Result::<Config, ConfigError>::Err(ConfigError::MissingRecordV4Id)) <==> (
            api_token is Some && zone_id is Some && record_v4_id is None),
            (r == Result::<Config, ConfigError>::Err(ConfigError::MissingRecordV6Id)) <==> (
            api_token is Some && zone_id is Some && record_v4_id is Some && record_v6_id is None),
            r matches Ok(c) ==> {
                &&& api_token matches Some(t) && c.api_token == t
                &&& zone_id matches Some(z) && c.zone_id == z
                &&& record_v4_id matches Some(v4) && c.record_v4_id == v4
                &&& record_v6_id matches Some(v6) && c.record_v6_id == v6
            },
    {
        let api_token = match api_token {
            Some(t) => t,
            None => {
                return Err(ConfigError::MissingApiToken);
            },
        };
        let zone_id = match zone_id {
            Some(z) => z,
            None => {
                return Err(ConfigError::MissingZoneId);
            },
        };
        let record_v4_id = match record_v4_id {
            Some(v4) => v4,
            None => {
                return Err(ConfigError::MissingRecordV4Id);
            },
        };
        let record_v6_id = match record_v6_id {
            Some(v6) => v6,
            None => {
                return Err(ConfigError::MissingRecordV6Id);
            },
        };
        Ok(Config { api_token, zone_id, record_v4_id, record_v6_id })
    }
}

} // verus!
