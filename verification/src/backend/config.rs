//! The backend's configuration.
use vstd::prelude::*;

verus! {

/// The backend's configuration.
pub struct AppConfig {
    pub host: String,
    pub port: u16,
    pub database_url: String,
    pub jwt_secret: String,
    pub access_token_ttl_minutes: i64,
}

/// The configuration values as the environment gives them: a value that is
/// unset (or, for a number, not a number) is none.
pub struct ConfigSource {
    pub host: Option<String>,
    pub port: Option<i64>,
    pub database_url: Option<String>,
    pub jwt_secret: Option<String>,
    pub access_token_ttl_minutes: Option<i64>,
}

/// A required configuration value that is missing.
#[derive(Clone, Copy, PartialEq, Eq, Structural, Debug)]
pub enum ConfigError {
    MissingDatabaseUrl,
    MissingJwtSecret,
}

/// What the error says.
pub open spec fn config_error_message(e: ConfigError) -> Seq<char> {
    match e {
        ConfigError::MissingDatabaseUrl => "DATABASE_URL is required"@,
        ConfigError::MissingJwtSecret => "JWT_SECRET is required"@,
    }
}

impl ConfigError {
    /// What the error says.
    pub fn message(&self) -> (m: String)
        ensures
            m@ == config_error_message(*self),
    {
        match self {
            ConfigError::MissingDatabaseUrl => "DATABASE_URL is required".to_owned(),
            ConfigError::MissingJwtSecret => "JWT_SECRET is required".to_owned(),
        }
    }
}

impl AppConfig {
    /// `AppConfig::from_env`: the host (127.0.0.1 by default), the port
    /// (5000 by default, cut to 16 bits), the database URL and JWT secret,
    /// which are required, and the token lifetime (60 minutes by default).
    pub fn from_env(source: &ConfigSource) -> (r: Result<AppConfig, ConfigError>)
        ensures
            match r {
                Ok(c) => {
                    &&& source.database_url matches Some(u) && c.database_url@ == u@
                    &&& source.jwt_secret matches Some(s) && c.jwt_secret@ == s@
                    &&& c.host@ == (match source.host {
                        Some(h) => h@,
                        None => "127.0.0.1"@,
                    })
                    &&& c.port == (match source.port {
                        Some(p) => p as u16,
                        None => 5000u16,
                    })
                    &&& c.access_token_ttl_minutes == (match source.access_token_ttl_minutes {
                        Some(t) => t,
                        None => 60,
                    })
                },
                Err(e) => if source.database_url is None {
                    e == ConfigError::MissingDatabaseUrl
                } else {
                    source.jwt_secret is None && e == ConfigError::MissingJwtSecret
                },
            },
    {
        let host = match &source.host {
            Some(h) => h.clone(),
            None => "127.0.0.1".to_owned(),
        };
        let port: u16 = match source.port {
            Some(p) => {
                #[verifier::truncate]
                (p as u16)
            },
            None => 5000,
        };
        let database_url = match &source.database_url {
            Some(u) => u.clone(),
            None => return Err(ConfigError::MissingDatabaseUrl),
        };
        let jwt_secret = match &source.jwt_secret {
            Some(s) => s.clone(),
            None => return Err(ConfigError::MissingJwtSecret),
        };
        let access_token_ttl_minutes = match source.access_token_ttl_minutes {
            Some(t) => t,
            None => 60,
        };
        Ok(AppConfig { host, port, database_url, jwt_secret, access_token_ttl_minutes })
    }
}

} // verus!
