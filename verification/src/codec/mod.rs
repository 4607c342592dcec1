//! Binary encoding and decoding of MQTT packets.

pub mod spec;
pub mod utils;
pub mod fields;
pub mod properties;
pub mod connect;
pub mod publish;
pub mod subscribe;
pub mod frame;
pub mod roundtrip;

pub use frame::MqttCodec;
