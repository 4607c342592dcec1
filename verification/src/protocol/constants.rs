//! Protocol names, versions, limits and default timeouts.

use vstd::prelude::*;
use std::time::Duration;
use crate::time::{secs_duration, duration_from_secs};

verus! {

/// Protocol name of MQTT 3.1.
pub const MQTT_PROTOCOL_NAME_V3_1: &'static str = "MQIsdp";
/// Protocol name of MQTT 3.1.1.
pub const MQTT_PROTOCOL_NAME_V3_1_1: &'static str = "MQTT";
/// Protocol name of MQTT 5.0.
pub const MQTT_PROTOCOL_NAME_V5_0: &'static str = "MQTT";

/// Protocol level of MQTT 3.1.
pub const MQTT_PROTOCOL_VERSION_V3_1: u8 = 3;
/// Protocol level of MQTT 3.1.1.
pub const MQTT_PROTOCOL_VERSION_V3_1_1: u8 = 4;
/// Protocol level of MQTT 5.0.
pub const MQTT_PROTOCOL_VERSION_V5_0: u8 = 5;

/// Largest packet payload the remaining length can describe.
pub const MAX_PACKET_SIZE: usize = 268_435_455;

/// Longest topic name.
pub const MAX_TOPIC_LENGTH: usize = 65535;

/// Longest client identifier a server must accept.
pub const MAX_CLIENT_ID_LENGTH: usize = 23;

/// Default keep-alive in seconds.
pub const DEFAULT_KEEP_ALIVE: u16 = 60;

/// Largest keep-alive in seconds.
pub const MAX_KEEP_ALIVE: u16 = 65535;

/// Default connect timeout: 30 seconds.
pub fn default_connect_timeout() -> (r: Duration)
    ensures
        r == secs_duration(30),
{
    duration_from_secs(30)
}

/// Default read timeout: 30 seconds.
pub fn default_read_timeout() -> (r: Duration)
    ensures
        r == secs_duration(30),
{
    duration_from_secs(30)
}

/// Default write timeout: 30 seconds.
pub fn default_write_timeout() -> (r: Duration)
    ensures
        r == secs_duration(30),
{
    duration_from_secs(30)
}

} // verus!
