use vstd::prelude::*;

verus! {

/// Process-wide configuration: read once at startup, shared read-only by all
/// request-handling units afterwards.
#[derive(Debug, Clone)]
pub struct Config {
    pub database_url: String,
    pub jwt_secret: String,
    pub jwt_maxage: i64,
    pub port: u16,
}

impl Config {
    /// Builds the configuration from the values the process environment
    /// supplied, on the service's fixed port.
    pub fn new(database_url: String, jwt_secret: String, jwt_maxage: i64) -> (c: Config)
        ensures
            c.database_url == database_url,
            c.jwt_secret == jwt_secret,
            c.jwt_maxage == jwt_maxage,
            c.port == 8081,
    {
        Config { database_url, jwt_secret, jwt_maxage, port: 8081 }
    }
}

} // verus!
