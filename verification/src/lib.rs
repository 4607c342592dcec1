//! # DumQ MQTT
//!
//! An MQTT 3.1.1 / 5.0 protocol library: packet types, the binary wire codec,
//! protocol options, and the client- and broker-side decisions taken for
//! each packet (authentication, sessions, topic matching, retained
//! messages). Sockets, timers and logging live outside this crate's
//! verified core.

pub mod buffer;
pub mod error;
pub mod text;
pub mod time;
pub mod string_map;
pub mod protocol;
pub mod types;
pub mod codec;
pub mod server;
pub mod client;

pub use client::{ClientConfig, ConnectionState};
pub use error::{Error, Result};
pub use protocol::{ConnectOptions, QoS, RetainFlag, DupFlag};
pub use types::{Packet, PacketType, Message, TopicFilter};

use vstd::prelude::*;

verus! {

/// The version of this library.
pub const VERSION: &'static str = "0.1.0";

/// MQTT protocol versions.
#[derive(Debug, Clone, Copy, PartialEq, Eq, Structural)]
pub enum ProtocolVersion {
    /// MQTT 3.1
    V3_1,
    /// MQTT 3.1.1
    V3_1_1,
    /// MQTT 5.0
    V5_0,
}

impl ProtocolVersion {
    /// The protocol level of this version (3, 4 or 5).
    pub open spec fn spec_level(self) -> u8 {
        match self {
            ProtocolVersion::V3_1 => 3,
            ProtocolVersion::V3_1_1 => 4,
            ProtocolVersion::V5_0 => 5,
        }
    }

    /// The protocol level of this version (3, 4 or 5).
    pub fn to_u8(&self) -> (r: u8)
        ensures
            r == self.spec_level(),
    {
        match self {
            ProtocolVersion::V3_1 => 3,
            ProtocolVersion::V3_1_1 => 4,
            ProtocolVersion::V5_0 => 5,
        }
    }

    /// The protocol name sent in CONNECT: "MQIsdp" for 3.1, "MQTT" after.
    pub fn protocol_name(&self) -> (r: &'static str)
        ensures
            *self == ProtocolVersion::V3_1 ==> r@ == "MQIsdp"@,
            *self != ProtocolVersion::V3_1 ==> r@ == "MQTT"@,
    {
        match self {
            ProtocolVersion::V3_1 => "MQIsdp",
            ProtocolVersion::V3_1_1 => "MQTT",
            ProtocolVersion::V5_0 => "MQTT",
        }
    }

    /// Whether this version has the MQTT 5.0 features.
    pub fn is_v5(&self) -> (r: bool)
        ensures
            r == (*self == ProtocolVersion::V5_0),
    {
        match self {
            ProtocolVersion::V5_0 => true,
            _ => false,
        }
    }
}

} // verus!
