//! Server configuration.

use vstd::prelude::*;
use super::auth::Authentication;

verus! {

/// MQTT server configuration.
#[derive(Debug, Clone)]
pub struct ServerConfig {
    pub bind_addr: String,
    pub max_connections: usize,
    pub max_packet_size: usize,
    pub protocol_version: u8,
    pub allow_anonymous: bool,
    pub authentication: Option<Authentication>,
}

impl ServerConfig {
    /// A configuration for `bind_addr`: 1000 connections, 1 MiB packets,
    /// MQTT 3.1.1, anonymous clients allowed, no authentication.
    pub fn new(bind_addr: &str) -> (r: Self)
        ensures
            r.bind_addr@ == bind_addr@,
            r.max_connections == 1000,
            r.max_packet_size == 1024 * 1024,
            r.protocol_version == 4,
            r.allow_anonymous,
            r.authentication is None,
    {
        ServerConfig {
            bind_addr: bind_addr.to_owned(),
            max_connections: 1000,
            max_packet_size: 1024 * 1024,
            protocol_version: 4,
            allow_anonymous: true,
            authentication: None,
        }
    }

    /// Sets the most connections.
    pub fn max_connections(self, max: usize) -> (r: Self)
        ensures
            r == (ServerConfig { max_connections: max, ..self }),
    {
        ServerConfig { max_connections: max, ..self }
    }

    /// Sets the largest packet size.
    pub fn max_packet_size(self, size: usize) -> (r: Self)
        ensures
            r == (ServerConfig { max_packet_size: size, ..self }),
    {
        ServerConfig { max_packet_size: size, ..self }
    }

    /// Sets the protocol version clients must use.
    pub fn protocol_version(self, version: u8) -> (r: Self)
        ensures
            r == (ServerConfig { protocol_version: version, ..self }),
    {
        ServerConfig { protocol_version: version, ..self }
    }

    /// Sets whether clients without a username are accepted.
    pub fn allow_anonymous(self, allow: bool) -> (r: Self)
        ensures
            r == (ServerConfig { allow_anonymous: allow, ..self }),
    {
        ServerConfig { allow_anonymous: allow, ..self }
    }

    /// Sets the users clients are checked against.
    pub fn authentication(self, auth: Authentication) -> (r: Self)
        ensures
            r == (ServerConfig { authentication: Some(auth), ..self }),
    {
        ServerConfig { authentication: Some(auth), ..self }
    }
}

} // verus!
