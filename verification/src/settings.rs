//! Configuration of the server, with its fixed defaults. Overrides from
//! the environment are applied by the embedding program; the defaults
//! themselves are pinned here.

use vstd::prelude::*;

verus! {

#[derive(Clone, Debug)]
pub struct ServerConfig {
    pub host: String,
    pub port: u16,
}

#[derive(Clone, Debug)]
pub struct DatabaseConfig {
    pub url: String,
}

#[derive(Clone, Debug)]
pub struct AuthConfig {
    pub jwt_secret: String,
    pub jwt_expiration: u64,
}

#[derive(Clone, Debug)]
pub struct AudioConfig {
    pub sample_rate: u32,
    pub chunk_size: usize,
}

#[derive(Clone, Debug)]
pub struct MqttConfig {
    pub broker: String,
    pub port: u16,
    pub username: Option<String>,
    pub password: Option<String>,
}

#[derive(Clone, Debug)]
pub struct Settings {
    pub server: ServerConfig,
    pub database: DatabaseConfig,
    pub auth: AuthConfig,
    pub audio: AudioConfig,
    pub mqtt: MqttConfig,
}

impl Settings {
    /// The default configuration.
    pub fn new() -> (r: Settings)
        ensures
            r.server.host@ == "0.0.0.0"@,
            r.server.port == 3000,
            r.database.url@ == "sqlite:barnaby.db"@,
            r.auth.jwt_secret@ == "your-secret-key-change-in-production"@,
            r.auth.jwt_expiration == 3600,
            r.audio.sample_rate == 16000,
            r.audio.chunk_size == 1024,
            r.mqtt.broker@ == "localhost"@,
            r.mqtt.port == 1883,
            r.mqtt.username is None,
            r.mqtt.password is None,
    {
        Settings {
            server: ServerConfig { host: "0.0.0.0".to_owned(), port: 3000 },
            database: DatabaseConfig { url: "sqlite:barnaby.db".to_owned() },
            auth: AuthConfig {
                jwt_secret: "your-secret-key-change-in-production".to_owned(),
                jwt_expiration: 3600,
            },
            audio: AudioConfig { sample_rate: 16000, chunk_size: 1024 },
            mqtt: MqttConfig {
                broker: "localhost".to_owned(),
                port: 1883,
                username: None,
                password: None,
            },
        }
    }
}

} // verus!
