//! The service's settings.
use crate::text::{append_decimal, decimal};
use vstd::prelude::*;

verus! {

/// Where the database is.
#[derive(Debug)]
pub struct DatabaseConfig {
    pub url: String,
}

/// Where the server listens.
#[derive(Debug)]
pub struct ServerConfig {
    pub host: String,
    pub port: u16,
}

/// All settings of the service.
#[derive(Debug)]
pub struct ConfigSettings {
    pub database: DatabaseConfig,
    pub server: ServerConfig,
}

impl ConfigSettings {
    /// The address the server binds: `host:port`.
    pub fn server_address(&self) -> (address: String)
        ensures
            address@ == self.server.host@ + ":"@ + decimal(self.server.port as nat),
    {
        let mut address = self.server.host.clone().concat(":");
        append_decimal(&mut address, self.server.port as u64);
        address
    }
}

} // verus!
