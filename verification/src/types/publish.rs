//! Publish-related packets: PUBLISH and its acknowledgments.

use vstd::prelude::*;
use bytes::Bytes;
use crate::buffer::bytes_contents;
use super::properties::{
    text_pairs, PublishProperties, PublishPropertiesView, PubAckProperties, PubRecProperties,
    PubRelProperties, PubCompProperties,
};

verus! {

/// Publish packet.
#[derive(Debug, Clone)]
pub struct PublishPacket {
    pub topic_name: String,
    pub packet_id: Option<u16>,
    pub payload: Bytes,
    pub properties: Option<PublishProperties>,
}

/// Abstract value of a `PublishPacket`.
pub struct PublishPacketView {
    pub topic_name: Seq<char>,
    pub packet_id: Option<u16>,
    pub payload: Seq<u8>,
    pub properties: Option<PublishPropertiesView>,
}

/// The view of optional publish properties.
pub open spec fn opt_publish_props(o: Option<PublishProperties>) -> Option<PublishPropertiesView> {
    match o {
        Some(p) => Some(p@),
        None => None,
    }
}

/// The properties of a publish packet, or empty ones when it has none.
pub open spec fn current_publish_props(p: PublishPacketView) -> PublishPropertiesView {
    match p.properties {
        Some(x) => x,
        None => PublishPropertiesView::empty(),
    }
}

impl View for PublishPacket {
    type V = PublishPacketView;

    open spec fn view(&self) -> PublishPacketView {
        PublishPacketView {
            topic_name: self.topic_name@,
            packet_id: self.packet_id,
            payload: bytes_contents(self.payload),
            properties: opt_publish_props(self.properties),
        }
    }
}

impl PublishPacket {
    /// A publish packet without packet ID or properties.
    pub fn new(topic_name: String, payload: Bytes) -> (r: Self)
        ensures
            r@ == (PublishPacketView {
                topic_name: topic_name@,
                packet_id: None,
                payload: bytes_contents(payload),
                properties: None,
            }),
    {
        PublishPacket { topic_name, packet_id: None, payload, properties: None }
    }

    /// A publish packet that carries `packet_id` when `qos > 0`.
    pub fn with_qos(topic_name: String, payload: Bytes, qos: u8, packet_id: u16) -> (r: Self)
        ensures
            r@ == (PublishPacketView {
                topic_name: topic_name@,
                packet_id: if qos > 0 { Some(packet_id) } else { None },
                payload: bytes_contents(payload),
                properties: None,
            }),
    {
        PublishPacket {
            topic_name,
            packet_id: if qos > 0 { Some(packet_id) } else { None },
            payload,
            properties: None,
        }
    }

    /// Sets the packet ID.
    pub fn packet_id(self, id: u16) -> (r: Self)
        ensures
            r@ == (PublishPacketView { packet_id: Some(id), ..self@ }),
    {
        let mut s = self;
        s.packet_id = Some(id);
        s
    }

    /// Sets the properties.
    pub fn properties(self, properties: PublishProperties) -> (r: Self)
        ensures
            r@ == (PublishPacketView { properties: Some(properties@), ..self@ }),
    {
        let mut s = self;
        s.properties = Some(properties);
        s
    }

    /// Sets the payload format indicator, creating the properties if there are none.
    pub fn payload_format_indicator(self, indicator: u8) -> (r: Self)
        ensures
            r@ == (PublishPacketView {
                properties: Some(PublishPropertiesView { payload_format_indicator: Some(indicator), ..current_publish_props(self@) }),
                ..self@
            }),
    {
        let PublishPacket { topic_name, packet_id, payload, properties } = self;
        let props = match properties {
            Some(p) => p,
            None => PublishProperties::new(),
        };
        PublishPacket { topic_name, packet_id, payload, properties: Some(props.payload_format_indicator(indicator)) }
    }

    /// Sets the message expiry interval, creating the properties if there are none.
    pub fn message_expiry_interval(self, interval: u32) -> (r: Self)
        ensures
            r@ == (PublishPacketView {
                properties: Some(PublishPropertiesView { message_expiry_interval: Some(interval), ..current_publish_props(self@) }),
                ..self@
            }),
    {
        let PublishPacket { topic_name, packet_id, payload, properties } = self;
        let props = match properties {
            Some(p) => p,
            None => PublishProperties::new(),
        };
        PublishPacket { topic_name, packet_id, payload, properties: Some(props.message_expiry_interval(interval)) }
    }

    /// Sets the topic alias, creating the properties if there are none.
    pub fn topic_alias(self, alias: u16) -> (r: Self)
        ensures
            r@ == (PublishPacketView {
                properties: Some(PublishPropertiesView { topic_alias: Some(alias), ..current_publish_props(self@) }),
                ..self@
            }),
    {
        let PublishPacket { topic_name, packet_id, payload, properties } = self;
        let props = match properties {
            Some(p) => p,
            None => PublishProperties::new(),
        };
        PublishPacket { topic_name, packet_id, payload, properties: Some(props.topic_alias(alias)) }
    }

    /// Sets the response topic, creating the properties if there are none.
    pub fn response_topic(self, topic: String) -> (r: Self)
        ensures
            r@ == (PublishPacketView {
                properties: Some(PublishPropertiesView { response_topic: Some(topic@), ..current_publish_props(self@) }),
                ..self@
            }),
    {
        let PublishPacket { topic_name, packet_id, payload, properties } = self;
        let props = match properties {
            Some(p) => p,
            None => PublishProperties::new(),
        };
        PublishPacket { topic_name, packet_id, payload, properties: Some(props.response_topic(topic)) }
    }

    /// Sets the correlation data, creating the properties if there are none.
    pub fn correlation_data(self, data: Bytes) -> (r: Self)
        ensures
            r@ == (PublishPacketView {
                properties: Some(PublishPropertiesView { correlation_data: Some(bytes_contents(data)), ..current_publish_props(self@) }),
                ..self@
            }),
    {
        let PublishPacket { topic_name, packet_id, payload, properties } = self;
        let props = match properties {
            Some(p) => p,
            None => PublishProperties::new(),
        };
        PublishPacket { topic_name, packet_id, payload, properties: Some(props.correlation_data(data)) }
    }

    /// Sets the subscription identifier, creating the properties if there are none.
    pub fn subscription_identifier(self, id: u32) -> (r: Self)
        ensures
            r@ == (PublishPacketView {
                properties: Some(PublishPropertiesView { subscription_identifier: Some(id), ..current_publish_props(self@) }),
                ..self@
            }),
    {
        let PublishPacket { topic_name, packet_id, payload, properties } = self;
        let props = match properties {
            Some(p) => p,
            None => PublishProperties::new(),
        };
        PublishPacket { topic_name, packet_id, payload, properties: Some(props.subscription_identifier(id)) }
    }

    /// Sets the content type, creating the properties if there are none.
    pub fn content_type(self, content_type: String) -> (r: Self)
        ensures
            r@ == (PublishPacketView {
                properties: Some(PublishPropertiesView { content_type: Some(content_type@), ..current_publish_props(self@) }),
                ..self@
            }),
    {
        let PublishPacket { topic_name, packet_id, payload, properties } = self;
        let props = match properties {
            Some(p) => p,
            None => PublishProperties::new(),
        };
        PublishPacket { topic_name, packet_id, payload, properties: Some(props.content_type(content_type)) }
    }

    /// Adds a user property, creating the properties if there are none.
    pub fn user_property(self, key: String, value: String) -> (r: Self)
        ensures
            r@.topic_name == self@.topic_name,
            r@.packet_id == self@.packet_id,
            r@.payload == self@.payload,
            r@.properties is Some,
            ({
                let before = match self.properties {
                    Some(p) => p.user_properties.view(),
                    None => Seq::empty(),
                };
                r@.properties.unwrap() == (PublishPropertiesView {
                    user_properties: text_pairs(crate::string_map::insert_entry(before, key@, value)),
                    ..current_publish_props(self@)
                })
            }),
    {
        let PublishPacket { topic_name, packet_id, payload, properties } = self;
        let props = match properties {
            Some(p) => p,
            None => {
                let p = PublishProperties::new();
                assert(p.user_properties.view().len() == p@.user_properties.len());
                assert(p.user_properties.view() =~= Seq::empty());
                p
            },
        };
        PublishPacket { topic_name, packet_id, payload, properties: Some(props.user_property(key, value)) }
    }

    /// Whether the packet carries any property.
    pub fn has_properties(&self) -> (r: bool)
        ensures
            r == (self@.properties matches Some(p) && !p.is_empty()),
    {
        match &self.properties {
            Some(p) => !p.is_empty(),
            None => false,
        }
    }

    /// QoS guessed from the packet ID: 1 when there is one, else 0.
    pub fn qos(&self) -> (r: u8)
        ensures
            r == (if self.packet_id is Some { 1u8 } else { 0u8 }),
    {
        if self.packet_id.is_some() {
            1
        } else {
            0
        }
    }
}

/// Abstract value of the four acknowledgment packets: packet ID, reason code
/// and whether properties are attached.
pub struct AckView {
    pub packet_id: u16,
    pub reason_code: Option<u8>,
    pub has_properties: bool,
}

/// PUBACK packet.
#[derive(Debug, Clone)]
pub struct PubAckPacket {
    pub packet_id: u16,
    pub reason_code: Option<u8>,
    pub properties: Option<PubAckProperties>,
}

impl View for PubAckPacket {
    type V = AckView;

    open spec fn view(&self) -> AckView {
        AckView {
            packet_id: self.packet_id,
            reason_code: self.reason_code,
            has_properties: self.properties is Some,
        }
    }
}

/// PUBREC packet.
#[derive(Debug, Clone)]
pub struct PubRecPacket {
    pub packet_id: u16,
    pub reason_code: Option<u8>,
    pub properties: Option<PubRecProperties>,
}

impl View for PubRecPacket {
    type V = AckView;

    open spec fn view(&self) -> AckView {
        AckView {
            packet_id: self.packet_id,
            reason_code: self.reason_code,
            has_properties: self.properties is Some,
        }
    }
}

/// PUBREL packet.
#[derive(Debug, Clone)]
pub struct PubRelPacket {
    pub packet_id: u16,
    pub reason_code: Option<u8>,
    pub properties: Option<PubRelProperties>,
}

impl View for PubRelPacket {
    type V = AckView;

    open spec fn view(&self) -> AckView {
        AckView {
            packet_id: self.packet_id,
            reason_code: self.reason_code,
            has_properties: self.properties is Some,
        }
    }
}

/// PUBCOMP packet.
#[derive(Debug, Clone)]
pub struct PubCompPacket {
    pub packet_id: u16,
    pub reason_code: Option<u8>,
    pub properties: Option<PubCompProperties>,
}

impl View for PubCompPacket {
    type V = AckView;

    open spec fn view(&self) -> AckView {
        AckView {
            packet_id: self.packet_id,
            reason_code: self.reason_code,
            has_properties: self.properties is Some,
        }
    }
}

} // verus!
