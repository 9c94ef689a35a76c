//! The service's settings: where the database is and which port to serve.

use vstd::prelude::*;
use vstd::string::StringExecFns;
use crate::text::{parse_unsigned, unsigned_value};

verus! {

/// The settings of the service.
#[derive(Debug, Clone)]
pub struct Config {
    database_url: String,
    server_port: u16,
}

/// A setting whose text could not be read.
#[derive(Debug, Clone)]
pub enum ConfigError {
    /// The server port is no number from 0 to 65535; the text as given.
    InvalidServerPort(String),
}

impl ConfigError {
    pub fn to_string(&self) -> (r: String)
        ensures
            r@ == "Failed to parse environment variable SERVER_PORT"@,
    {
        String::from_str("Failed to parse environment variable SERVER_PORT")
    }
}

impl Config {
    pub closed spec fn spec_database_url(&self) -> Seq<char> {
        self.database_url@
    }

    pub closed spec fn spec_server_port(&self) -> u16 {
        self.server_port
    }

    /// Settings from their texts: the database URL as given, and the port
    /// as an unsigned decimal numeral that fits `u16`.
    pub fn from_values(database_url: String, server_port: &str) -> (r: Result<Config, ConfigError>)
        ensures
            r is Ok <==> (unsigned_value(server_port@) is Some && unsigned_value(server_port@)->0
                <= u16::MAX),
            r matches Ok(c) ==> c.spec_database_url() == database_url@ && c.spec_server_port()
                == unsigned_value(server_port@)->0,
            r matches Err(ConfigError::InvalidServerPort(t)) ==> t@ == server_port@,
    {
        match parse_unsigned(server_port, u16::MAX as u64) {
            Some(port) => Ok(Config { database_url, server_port: port as u16 }),
            None => Err(ConfigError::InvalidServerPort(String::from_str(server_port))),
        }
    }

    pub fn database_url(&self) -> (r: &str)
        ensures
            r@ == self.spec_database_url(),
    {
        self.database_url.as_str()
    }

    pub fn server_port(&self) -> (r: u16)
        ensures
            r == self.spec_server_port(),
    {
        self.server_port
    }
}

} // verus!
