//! Service settings, read from environment values with defaults.

use vstd::prelude::*;
use crate::numbers::{
    i64_parse, u16_parse, parse_i64, parse_u16, is_digit_run, lemma_digits_value_step,
};
use crate::text::owned;

verus! {

/// Service settings.
#[derive(Debug, Clone)]
pub struct Config {
    pub database_url: String,
    pub jwt_secret: String,
    /// Lifetime of access tokens, in seconds.
    pub jwt_access_expiry_seconds: i64,
    /// Lifetime of refresh tokens, in seconds.
    pub jwt_refresh_expiry_seconds: i64,
    pub host: String,
    pub port: u16,
}

/// Why the settings could not be read.
#[derive(Debug)]
pub enum ConfigError {
    MissingDatabaseUrl,
    MissingJwtSecret,
    InvalidAccessExpiry,
    InvalidRefreshExpiry,
    InvalidPort,
}

/// The text of a setting, or its default when unset.
pub open spec fn text_or(v: Option<String>, default: Seq<char>) -> Seq<char> {
    match v {
        Some(s) => s@,
        None => default,
    }
}

/// Settings as plain values: database URL, secret, the two lifetimes,
/// host and port.
pub type ConfigValues = (Seq<char>, Seq<char>, i64, i64, Seq<char>, u16);

/// The settings that the environment values give, checked in the order
/// DATABASE_URL, JWT_SECRET, JWT_ACCESS_EXPIRY_SECONDS (default 900),
/// JWT_REFRESH_EXPIRY_SECONDS (default 604800), HOST (default
/// 127.0.0.1), PORT (default 3000).
pub open spec fn config_outcome(
    database_url: Option<String>,
    jwt_secret: Option<String>,
    access_expiry: Option<String>,
    refresh_expiry: Option<String>,
    host: Option<String>,
    port: Option<String>,
) -> Result<ConfigValues, ConfigError> {
    if database_url is None {
        Err(ConfigError::MissingDatabaseUrl)
    } else if jwt_secret is None {
        Err(ConfigError::MissingJwtSecret)
    } else if i64_parse(text_or(access_expiry, "900"@)) is None {
        Err(ConfigError::InvalidAccessExpiry)
    } else if i64_parse(text_or(refresh_expiry, "604800"@)) is None {
        Err(ConfigError::InvalidRefreshExpiry)
    } else if u16_parse(text_or(port, "3000"@)) is None {
        Err(ConfigError::InvalidPort)
    } else {
        Ok(
            (
                database_url->0@,
                jwt_secret->0@,
                i64_parse(text_or(access_expiry, "900"@))->0,
                i64_parse(text_or(refresh_expiry, "604800"@))->0,
                text_or(host, "127.0.0.1"@),
                u16_parse(text_or(port, "3000"@))->0,
            ),
        )
    }
}

/// With only the database URL and the secret set, the service runs with
/// access tokens of 900 seconds (15 minutes), refresh tokens of 604800
/// seconds (7 days), on 127.0.0.1, port 3000.
pub proof fn lemma_defaults(database_url: String, jwt_secret: String)
    ensures
        config_outcome(Some(database_url), Some(jwt_secret), None, None, None, None) == Ok::<
            ConfigValues,
            ConfigError,
        >((database_url@, jwt_secret@, 900, 604800, "127.0.0.1"@, 3000)),
{
    reveal_strlit("900");
    reveal_strlit("604800");
    reveal_strlit("3000");
    let e = Seq::<char>::empty();
    let d900 = e.push('9').push('0').push('0');
    let d604800 = e.push('6').push('0').push('4').push('8').push('0').push('0');
    let d3000 = e.push('3').push('0').push('0').push('0');
    assert("900"@ =~= d900);
    assert("604800"@ =~= d604800);
    assert("3000"@ =~= d3000);
    lemma_digits_value_step(e, '9');
    lemma_digits_value_step(e.push('9'), '0');
    lemma_digits_value_step(e.push('9').push('0'), '0');
    lemma_digits_value_step(e, '6');
    lemma_digits_value_step(e.push('6'), '0');
    lemma_digits_value_step(e.push('6').push('0'), '4');
    lemma_digits_value_step(e.push('6').push('0').push('4'), '8');
    lemma_digits_value_step(e.push('6').push('0').push('4').push('8'), '0');
    lemma_digits_value_step(e.push('6').push('0').push('4').push('8').push('0'), '0');
    lemma_digits_value_step(e, '3');
    lemma_digits_value_step(e.push('3'), '0');
    lemma_digits_value_step(e.push('3').push('0'), '0');
    lemma_digits_value_step(e.push('3').push('0').push('0'), '0');
    assert(is_digit_run(d900));
    assert(is_digit_run(d604800));
    assert(is_digit_run(d3000));
}

impl Config {
    /// The settings as plain values.
    pub open spec fn values(&self) -> ConfigValues {
        (
            self.database_url@,
            self.jwt_secret@,
            self.jwt_access_expiry_seconds,
            self.jwt_refresh_expiry_seconds,
            self.host@,
            self.port,
        )
    }

    /// What is wrong with the values of the environment variables
    /// DATABASE_URL, JWT_SECRET, JWT_ACCESS_EXPIRY_SECONDS,
    /// JWT_REFRESH_EXPIRY_SECONDS, HOST and PORT (`None` where unset), in
    /// that order: a missing database URL or secret, or a number that
    /// `str::parse` does not read. `None` when the settings can be built;
    /// the service stops with the error's message otherwise.
    pub fn env_values_error(
        database_url: &Option<String>,
        jwt_secret: &Option<String>,
        access_expiry: &Option<String>,
        refresh_expiry: &Option<String>,
        host: &Option<String>,
        port: &Option<String>,
    ) -> (res: Option<ConfigError>)
        ensures
            match config_outcome(*database_url, *jwt_secret, *access_expiry, *refresh_expiry, *host, *port) {
                Ok(_) => res is None,
                Err(e) => res == Some(e),
            },
    {
        if database_url.is_none() {
            return Some(ConfigError::MissingDatabaseUrl);
        }
        if jwt_secret.is_none() {
            return Some(ConfigError::MissingJwtSecret);
        }
        let access = match access_expiry {
            Some(v) => parse_i64(v.as_str()),
            None => parse_i64("900"),
        };
        if access.is_none() {
            return Some(ConfigError::InvalidAccessExpiry);
        }
        let refresh = match refresh_expiry {
            Some(v) => parse_i64(v.as_str()),
            None => parse_i64("604800"),
        };
        if refresh.is_none() {
            return Some(ConfigError::InvalidRefreshExpiry);
        }
        let port_value = match port {
            Some(v) => parse_u16(v.as_str()),
            None => parse_u16("3000"),
        };
        if port_value.is_none() {
            return Some(ConfigError::InvalidPort);
        }
        None
    }

    /// Builds the settings from the values of the environment variables
    /// DATABASE_URL, JWT_SECRET, JWT_ACCESS_EXPIRY_SECONDS (default 900),
    /// JWT_REFRESH_EXPIRY_SECONDS (default 604800), HOST (default
    /// 127.0.0.1) and PORT (default 3000), `None` where unset; numbers are
    /// read as `str::parse` reads them. The values must be ones
    /// `env_values_error` finds nothing wrong with.
    pub fn from_env_values(
        database_url: Option<String>,
        jwt_secret: Option<String>,
        access_expiry: Option<String>,
        refresh_expiry: Option<String>,
        host: Option<String>,
        port: Option<String>,
    ) -> (res: Config)
        requires
            config_outcome(database_url, jwt_secret, access_expiry, refresh_expiry, host, port) is Ok,
        ensures
            Ok::<ConfigValues, ConfigError>(res.values()) == config_outcome(
                database_url,
                jwt_secret,
                access_expiry,
                refresh_expiry,
                host,
                port,
            ),
    {
        let access = match &access_expiry {
            Some(v) => parse_i64(v.as_str()),
            None => parse_i64("900"),
        };
        let refresh = match &refresh_expiry {
            Some(v) => parse_i64(v.as_str()),
            None => parse_i64("604800"),
        };
        let port_value = match &port {
            Some(v) => parse_u16(v.as_str()),
            None => parse_u16("3000"),
        };
        match (database_url, jwt_secret, access, refresh, port_value) {
            (Some(database_url), Some(jwt_secret), Some(a), Some(r), Some(p)) => {
                let host = match host {
                    Some(v) => v,
                    None => owned("127.0.0.1"),
                };
                Config {
                    database_url,
                    jwt_secret,
                    jwt_access_expiry_seconds: a,
                    jwt_refresh_expiry_seconds: r,
                    host,
                    port: p,
                }
            },
            _ => {
                proof {
                    assert(false);
                }
                Config {
                    database_url: String::new(),
                    jwt_secret: String::new(),
                    jwt_access_expiry_seconds: 0,
                    jwt_refresh_expiry_seconds: 0,
                    host: String::new(),
                    port: 0,
                }
            },
        }
    }
}

impl ConfigError {
    /// The message the service stops with.
    pub fn message(&self) -> (m: String)
        ensures
            m@ == match *self {
                ConfigError::MissingDatabaseUrl => "DATABASE_URL must be set"@,
                ConfigError::MissingJwtSecret => "JWT_SECRET must be set"@,
                ConfigError::InvalidAccessExpiry => "JWT_ACCESS_EXPIRY_SECONDS must be a number"@,
                ConfigError::InvalidRefreshExpiry => "JWT_REFRESH_EXPIRY_SECONDS must be a number"@,
                ConfigError::InvalidPort => "PORT must be a number"@,
            },
    {
        match self {
            ConfigError::MissingDatabaseUrl => owned("DATABASE_URL must be set"),
            ConfigError::MissingJwtSecret => owned("JWT_SECRET must be set"),
            ConfigError::InvalidAccessExpiry => owned("JWT_ACCESS_EXPIRY_SECONDS must be a number"),
            ConfigError::InvalidRefreshExpiry => owned(
                "JWT_REFRESH_EXPIRY_SECONDS must be a number",
            ),
            ConfigError::InvalidPort => owned("PORT must be a number"),
        }
    }
}

} // verus!
