//! Client configuration.

use vstd::prelude::*;
use std::time::Duration;
use crate::time::{secs_duration, duration_from_secs};

verus! {

/// Where a client connects and how long it waits.
#[derive(Debug, Clone)]
pub struct ClientConfig {
    pub server_addr: String,
    pub connect_timeout: Duration,
    pub read_timeout: Duration,
    pub write_timeout: Duration,
    pub keep_alive_interval: Duration,
    pub max_packet_size: usize,
    pub protocol_version: u8,
}

impl ClientConfig {
    /// A configuration for `server_addr`: 30-second timeouts, 60-second
    /// keep-alive, 1 MiB packets, MQTT 3.1.1.
    pub fn new(server_addr: &str) -> (r: Self)
        ensures
            r.server_addr@ == server_addr@,
            r.connect_timeout == secs_duration(30),
            r.read_timeout == secs_duration(30),
            r.write_timeout == secs_duration(30),
            r.keep_alive_interval == secs_duration(60),
            r.max_packet_size == 1024 * 1024,
            r.protocol_version == 4,
    {
        ClientConfig {
            server_addr: server_addr.to_owned(),
            connect_timeout: duration_from_secs(30),
            read_timeout: duration_from_secs(30),
            write_timeout: duration_from_secs(30),
            keep_alive_interval: duration_from_secs(60),
            max_packet_size: 1024 * 1024,
            protocol_version: 4,
        }
    }

    /// Sets the connect timeout.
    pub fn connect_timeout(self, timeout: Duration) -> (r: Self)
        ensures
            r == (ClientConfig { connect_timeout: timeout, ..self }),
    {
        ClientConfig { connect_timeout: timeout, ..self }
    }

    /// Sets the read timeout.
    pub fn read_timeout(self, timeout: Duration) -> (r: Self)
        ensures
            r == (ClientConfig { read_timeout: timeout, ..self }),
    {
        ClientConfig { read_timeout: timeout, ..self }
    }

    /// Sets the write timeout.
    pub fn write_timeout(self, timeout: Duration) -> (r: Self)
        ensures
            r == (ClientConfig { write_timeout: timeout, ..self }),
    {
        ClientConfig { write_timeout: timeout, ..self }
    }

    /// Sets the keep-alive interval.
    pub fn keep_alive_interval(self, interval: Duration) -> (r: Self)
        ensures
            r == (ClientConfig { keep_alive_interval: interval, ..self }),
    {
        ClientConfig { keep_alive_interval: interval, ..self }
    }

    /// Sets the largest packet size.
    pub fn max_packet_size(self, size: usize) -> (r: Self)
        ensures
            r == (ClientConfig { max_packet_size: size, ..self }),
    {
        ClientConfig { max_packet_size: size, ..self }
    }

    /// Sets the protocol version.
    pub fn protocol_version(self, version: u8) -> (r: Self)
        ensures
            r == (ClientConfig { protocol_version: version, ..self }),
    {
        ClientConfig { protocol_version: version, ..self }
    }
}

} // verus!
