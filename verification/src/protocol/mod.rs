//! Protocol-level abstractions: QoS levels, flags, options and reason codes.

pub mod qos;
pub mod flags;
pub mod constants;
pub mod reason_codes;
pub mod publish;
pub mod subscribe;
pub mod connect;
pub mod packet_id;

pub use qos::QoS;
pub use flags::{RetainFlag, DupFlag};
pub use reason_codes::ReasonCode;
pub use publish::PublishOptions;
pub use subscribe::SubscribeOptions;
pub use connect::ConnectOptions;
pub use constants::{
    MQTT_PROTOCOL_NAME_V3_1, MQTT_PROTOCOL_NAME_V3_1_1, MQTT_PROTOCOL_NAME_V5_0,
    MQTT_PROTOCOL_VERSION_V3_1, MQTT_PROTOCOL_VERSION_V3_1_1, MQTT_PROTOCOL_VERSION_V5_0,
    MAX_PACKET_SIZE, MAX_TOPIC_LENGTH, MAX_CLIENT_ID_LENGTH, DEFAULT_KEEP_ALIVE, MAX_KEEP_ALIVE,
    default_connect_timeout, default_read_timeout, default_write_timeout,
};
pub use packet_id::PacketIdCounter;
