//! Subscription-related packets: SUBSCRIBE, SUBACK, UNSUBSCRIBE, UNSUBACK.

use vstd::prelude::*;
use super::properties::{SubscribeProperties, SubAckProperties, UnsubscribeProperties, UnsubAckProperties};

verus! {

/// Topic filter with QoS and MQTT 5.0 subscription options.
#[derive(Debug, Clone)]
pub struct TopicFilter {
    pub topic: String,
    pub qos: u8,
    pub no_local: bool,
    pub retain_as_published: bool,
    pub retain_handling: u8,
}

/// Abstract value of a `TopicFilter`.
pub struct TopicFilterView {
    pub topic: Seq<char>,
    pub qos: u8,
    pub no_local: bool,
    pub retain_as_published: bool,
    pub retain_handling: u8,
}

impl View for TopicFilter {
    type V = TopicFilterView;

    open spec fn view(&self) -> TopicFilterView {
        TopicFilterView {
            topic: self.topic@,
            qos: self.qos,
            no_local: self.no_local,
            retain_as_published: self.retain_as_published,
            retain_handling: self.retain_handling,
        }
    }
}

/// The views of a sequence of topic filters.
pub open spec fn filters_view(s: Seq<TopicFilter>) -> Seq<TopicFilterView> {
    s.map_values(|f: TopicFilter| f@)
}

/// The characters of a sequence of strings.
pub open spec fn strings_view(s: Seq<String>) -> Seq<Seq<char>> {
    s.map_values(|t: String| t@)
}

/// Subscribe packet.
#[derive(Debug, Clone)]
pub struct SubscribePacket {
    pub packet_id: u16,
    pub topic_filters: Vec<TopicFilter>,
    pub properties: Option<SubscribeProperties>,
}

/// Abstract value of a `SubscribePacket`.
pub struct SubscribePacketView {
    pub packet_id: u16,
    pub topic_filters: Seq<TopicFilterView>,
    pub has_properties: bool,
}

impl View for SubscribePacket {
    type V = SubscribePacketView;

    open spec fn view(&self) -> SubscribePacketView {
        SubscribePacketView {
            packet_id: self.packet_id,
            topic_filters: filters_view(self.topic_filters@),
            has_properties: self.properties is Some,
        }
    }
}

/// Subscribe acknowledgment packet.
#[derive(Debug, Clone)]
pub struct SubAckPacket {
    pub packet_id: u16,
    pub return_codes: Vec<u8>,
    pub properties: Option<SubAckProperties>,
}

/// Abstract value of a `SubAckPacket`.
pub struct SubAckPacketView {
    pub packet_id: u16,
    pub return_codes: Seq<u8>,
    pub has_properties: bool,
}

impl View for SubAckPacket {
    type V = SubAckPacketView;

    open spec fn view(&self) -> SubAckPacketView {
        SubAckPacketView {
            packet_id: self.packet_id,
            return_codes: self.return_codes@,
            has_properties: self.properties is Some,
        }
    }
}

/// Unsubscribe packet.
#[derive(Debug, Clone)]
pub struct UnsubscribePacket {
    pub packet_id: u16,
    pub topic_filters: Vec<String>,
    pub properties: Option<UnsubscribeProperties>,
}

/// Abstract value of an `UnsubscribePacket`.
pub struct UnsubscribePacketView {
    pub packet_id: u16,
    pub topic_filters: Seq<Seq<char>>,
    pub has_properties: bool,
}

impl View for UnsubscribePacket {
    type V = UnsubscribePacketView;

    open spec fn view(&self) -> UnsubscribePacketView {
        UnsubscribePacketView {
            packet_id: self.packet_id,
            topic_filters: strings_view(self.topic_filters@),
            has_properties: self.properties is Some,
        }
    }
}

/// Unsubscribe acknowledgment packet.
#[derive(Debug, Clone)]
pub struct UnsubAckPacket {
    pub packet_id: u16,
    pub reason_codes: Vec<u8>,
    pub properties: Option<UnsubAckProperties>,
}

/// Abstract value of an `UnsubAckPacket`.
pub struct UnsubAckPacketView {
    pub packet_id: u16,
    pub reason_codes: Seq<u8>,
    pub has_properties: bool,
}

impl View for UnsubAckPacket {
    type V = UnsubAckPacketView;

    open spec fn view(&self) -> UnsubAckPacketView {
        UnsubAckPacketView {
            packet_id: self.packet_id,
            reason_codes: self.reason_codes@,
            has_properties: self.properties is Some,
        }
    }
}

} // verus!
