//! Core data structures: packets, messages and MQTT 5.0 properties.

pub mod constants;
pub mod properties;
pub mod message;
pub mod packet;
pub mod connect;
pub mod publish;
pub mod subscribe;
pub mod builders;

pub use constants::{
    PROPERTY_PAYLOAD_FORMAT_INDICATOR, PROPERTY_MESSAGE_EXPIRY_INTERVAL, PROPERTY_CONTENT_TYPE,
    PROPERTY_RESPONSE_TOPIC, PROPERTY_CORRELATION_DATA, PROPERTY_SUBSCRIPTION_IDENTIFIER,
    PROPERTY_SESSION_EXPIRY_INTERVAL, PROPERTY_ASSIGNED_CLIENT_IDENTIFIER, PROPERTY_SERVER_KEEP_ALIVE,
    PROPERTY_AUTHENTICATION_METHOD, PROPERTY_AUTHENTICATION_DATA, PROPERTY_REQUEST_PROBLEM_INFORMATION,
    PROPERTY_WILL_DELAY_INTERVAL, PROPERTY_REQUEST_RESPONSE_INFORMATION, PROPERTY_RESPONSE_INFORMATION,
    PROPERTY_SERVER_REFERENCE, PROPERTY_REASON_STRING, PROPERTY_RECEIVE_MAXIMUM,
    PROPERTY_TOPIC_ALIAS_MAXIMUM, PROPERTY_TOPIC_ALIAS, PROPERTY_MAXIMUM_QOS, PROPERTY_RETAIN_AVAILABLE,
    PROPERTY_USER_PROPERTY, PROPERTY_MAXIMUM_PACKET_SIZE, PROPERTY_WILDCARD_SUBSCRIPTION_AVAILABLE,
    PROPERTY_SUBSCRIPTION_IDENTIFIERS_AVAILABLE, PROPERTY_SHARED_SUBSCRIPTION_AVAILABLE,
    PAYLOAD_FORMAT_INDICATOR_UNSPECIFIED, PAYLOAD_FORMAT_INDICATOR_UTF8,
};
pub use properties::{
    ConnectProperties, ConnectPropertiesView, ConnAckProperties, ConnAckPropertiesView,
    PublishProperties, PublishPropertiesView, PubAckProperties, PubRecProperties, PubRelProperties,
    PubCompProperties, SubscribeProperties, SubAckProperties, UnsubscribeProperties,
    UnsubAckProperties, DisconnectProperties, AuthProperties,
};
pub use message::{Message, MessageView};
pub use packet::{PacketType, PacketHeader, Packet, PacketPayload, PayloadView, PacketView};
pub use connect::{
    ConnectPacket, ConnectPacketView, ConnectReturnCode, ConnAckPacket, ConnAckPacketView,
    DisconnectPacket, DisconnectPacketView, AuthPacket, AuthPacketView,
};
pub use publish::{
    PublishPacket, PublishPacketView, AckView, PubAckPacket, PubRecPacket, PubRelPacket, PubCompPacket,
};
pub use subscribe::{
    TopicFilter, TopicFilterView, SubscribePacket, SubscribePacketView, SubAckPacket, SubAckPacketView,
    UnsubscribePacket, UnsubscribePacketView, UnsubAckPacket, UnsubAckPacketView,
};
