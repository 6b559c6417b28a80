//! The configuration surface: server binding, database connection,
//! object-storage bucket and token signing. Every setting has a safe
//! development default, stated below; the boundary overrides them from the
//! environment.

use vstd::prelude::*;

verus! {

/// Where the HTTP server binds.
#[derive(Debug)]
pub struct ServerConfig {
    pub host: String,
    pub port: u16,
}

/// How the persistence layer is reached.
#[derive(Debug)]
pub struct DatabaseConfig {
    pub url: String,
}

/// Which object-storage bucket holds the media files.
#[derive(Debug)]
pub struct StorageConfig {
    pub bucket_name: String,
    pub region: String,
    pub endpoint_url: Option<String>,
}

/// Token signing secret and lifetime.
#[derive(Debug)]
pub struct AuthConfig {
    pub jwt_secret: String,
    pub jwt_expiry_hours: i64,
}

/// The whole configuration.
#[derive(Debug)]
pub struct Config {
    pub server: ServerConfig,
    pub database: DatabaseConfig,
    pub storage: StorageConfig,
    pub auth: AuthConfig,
}

impl Config {
    /// The documented development defaults; every field can be overridden by
    /// the boundary before the configuration is used.
    pub fn dev_defaults() -> (c: Config)
        ensures
            c.server.host@ == "0.0.0.0"@,
            c.server.port == 3000,
            c.database.url@ == "sqlite://data/navicore-music.db"@,
            c.storage.bucket_name@ == "navicore-music-files"@,
            c.storage.region@ == "auto"@,
            c.storage.endpoint_url is None,
            c.auth.jwt_secret@ == "dev-jwt-secret"@,
            c.auth.jwt_expiry_hours == 24,
    {
        Config {
            server: ServerConfig { host: "0.0.0.0".to_owned(), port: 3000 },
            database: DatabaseConfig { url: "sqlite://data/navicore-music.db".to_owned() },
            storage: StorageConfig {
                bucket_name: "navicore-music-files".to_owned(),
                region: "auto".to_owned(),
                endpoint_url: None,
            },
            auth: AuthConfig { jwt_secret: "dev-jwt-secret".to_owned(), jwt_expiry_hours: 24 },
        }
    }
}

} // verus!
