//! Packet types, fixed header and the packet container.

use vstd::prelude::*;
use super::connect::{
    ConnectPacket, ConnectPacketView, ConnAckPacket, ConnAckPacketView, DisconnectPacket,
    DisconnectPacketView, AuthPacket, AuthPacketView,
};
use super::publish::{PublishPacket, PublishPacketView, AckView, PubAckPacket, PubRecPacket, PubRelPacket, PubCompPacket};
use super::subscribe::{
    SubscribePacket, SubscribePacketView, SubAckPacket, SubAckPacketView, UnsubscribePacket,
    UnsubscribePacketView, UnsubAckPacket, UnsubAckPacketView,
};

verus! {

/// MQTT control packet types.
#[derive(Debug, Clone, Copy, PartialEq, Eq, Structural)]
pub enum PacketType {
    Connect,
    ConnAck,
    Publish,
    PubAck,
    PubRec,
    PubRel,
    PubComp,
    Subscribe,
    SubAck,
    Unsubscribe,
    UnsubAck,
    PingReq,
    PingResp,
    Disconnect,
    Auth,
}

impl PacketType {
    /// The 4-bit wire value of this type (1 to 15).
    pub open spec fn spec_code(self) -> u8 {
        match self {
            PacketType::Connect => 1,
            PacketType::ConnAck => 2,
            PacketType::Publish => 3,
            PacketType::PubAck => 4,
            PacketType::PubRec => 5,
            PacketType::PubRel => 6,
            PacketType::PubComp => 7,
            PacketType::Subscribe => 8,
            PacketType::SubAck => 9,
            PacketType::Unsubscribe => 10,
            PacketType::UnsubAck => 11,
            PacketType::PingReq => 12,
            PacketType::PingResp => 13,
            PacketType::Disconnect => 14,
            PacketType::Auth => 15,
        }
    }

    /// The type with wire value `value`, if any.
    pub open spec fn spec_from_code(value: u8) -> Option<PacketType> {
        match value {
            1 => Some(PacketType::Connect),
            2 => Some(PacketType::ConnAck),
            3 => Some(PacketType::Publish),
            4 => Some(PacketType::PubAck),
            5 => Some(PacketType::PubRec),
            6 => Some(PacketType::PubRel),
            7 => Some(PacketType::PubComp),
            8 => Some(PacketType::Subscribe),
            9 => Some(PacketType::SubAck),
            10 => Some(PacketType::Unsubscribe),
            11 => Some(PacketType::UnsubAck),
            12 => Some(PacketType::PingReq),
            13 => Some(PacketType::PingResp),
            14 => Some(PacketType::Disconnect),
            15 => Some(PacketType::Auth),
            _ => None,
        }
    }

    /// The 4-bit wire value of this type.
    pub fn to_u8(&self) -> (r: u8)
        ensures
            r == self.spec_code(),
    {
        match self {
            PacketType::Connect => 1,
            PacketType::ConnAck => 2,
            PacketType::Publish => 3,
            PacketType::PubAck => 4,
            PacketType::PubRec => 5,
            PacketType::PubRel => 6,
            PacketType::PubComp => 7,
            PacketType::Subscribe => 8,
            PacketType::SubAck => 9,
            PacketType::Unsubscribe => 10,
            PacketType::UnsubAck => 11,
            PacketType::PingReq => 12,
            PacketType::PingResp => 13,
            PacketType::Disconnect => 14,
            PacketType::Auth => 15,
        }
    }

    /// The type with wire value `value`; `None` outside 1 to 15.
    pub fn from_u8(value: u8) -> (r: Option<Self>)
        ensures
            r == Self::spec_from_code(value),
            r is Some <==> 1 <= value <= 15,
            r matches Some(t) ==> t.spec_code() == value,
    {
        match value {
            1 => Some(PacketType::Connect),
            2 => Some(PacketType::ConnAck),
            3 => Some(PacketType::Publish),
            4 => Some(PacketType::PubAck),
            5 => Some(PacketType::PubRec),
            6 => Some(PacketType::PubRel),
            7 => Some(PacketType::PubComp),
            8 => Some(PacketType::Subscribe),
            9 => Some(PacketType::SubAck),
            10 => Some(PacketType::Unsubscribe),
            11 => Some(PacketType::UnsubAck),
            12 => Some(PacketType::PingReq),
            13 => Some(PacketType::PingResp),
            14 => Some(PacketType::Disconnect),
            15 => Some(PacketType::Auth),
            _ => None,
        }
    }
}

/// Reading a packet type back from its wire value gives the type.
pub proof fn lemma_packet_type_roundtrip(t: PacketType)
    ensures
        PacketType::spec_from_code(t.spec_code()) == Some(t),
        1 <= t.spec_code() <= 15,
{
}

/// The wire values of the packet types are those of the MQTT standard:
/// CONNECT 1, CONNACK 2, PUBLISH 3, PUBACK 4, PUBREC 5, PUBREL 6, PUBCOMP 7,
/// SUBSCRIBE 8, SUBACK 9, UNSUBSCRIBE 10, UNSUBACK 11, PINGREQ 12,
/// PINGRESP 13, DISCONNECT 14, AUTH 15; 0 is no packet type.
pub proof fn lemma_packet_type_codes()
    ensures
        PacketType::Connect.spec_code() == 1 && PacketType::ConnAck.spec_code() == 2,
        PacketType::Publish.spec_code() == 3 && PacketType::PubAck.spec_code() == 4,
        PacketType::PubRec.spec_code() == 5 && PacketType::PubRel.spec_code() == 6,
        PacketType::PubComp.spec_code() == 7 && PacketType::Subscribe.spec_code() == 8,
        PacketType::SubAck.spec_code() == 9 && PacketType::Unsubscribe.spec_code() == 10,
        PacketType::UnsubAck.spec_code() == 11 && PacketType::PingReq.spec_code() == 12,
        PacketType::PingResp.spec_code() == 13 && PacketType::Disconnect.spec_code() == 14,
        PacketType::Auth.spec_code() == 15,
        PacketType::spec_from_code(0) is None,
{
}

/// MQTT fixed header.
#[derive(Debug, Clone)]
pub struct PacketHeader {
    pub packet_type: PacketType,
    pub dup: bool,
    pub qos: u8,
    pub retain: bool,
    pub remaining_length: usize,
}

impl View for PacketHeader {
    type V = PacketHeader;

    open spec fn view(&self) -> PacketHeader {
        *self
    }
}

/// MQTT packet: fixed header and payload.
#[derive(Debug, Clone)]
pub struct Packet {
    pub header: PacketHeader,
    pub payload: PacketPayload,
}

/// MQTT packet payload.
#[derive(Debug, Clone)]
pub enum PacketPayload {
    Connect(ConnectPacket),
    ConnAck(ConnAckPacket),
    Publish(PublishPacket),
    PubAck(PubAckPacket),
    PubRec(PubRecPacket),
    PubRel(PubRelPacket),
    PubComp(PubCompPacket),
    Subscribe(SubscribePacket),
    SubAck(SubAckPacket),
    Unsubscribe(UnsubscribePacket),
    UnsubAck(UnsubAckPacket),
    PingReq,
    PingResp,
    Disconnect(DisconnectPacket),
    Auth(AuthPacket),
}

/// Abstract value of a `PacketPayload`.
pub enum PayloadView {
    Connect(ConnectPacketView),
    ConnAck(ConnAckPacketView),
    Publish(PublishPacketView),
    PubAck(AckView),
    PubRec(AckView),
    PubRel(AckView),
    PubComp(AckView),
    Subscribe(SubscribePacketView),
    SubAck(SubAckPacketView),
    Unsubscribe(UnsubscribePacketView),
    UnsubAck(UnsubAckPacketView),
    PingReq,
    PingResp,
    Disconnect(DisconnectPacketView),
    Auth(AuthPacketView),
}

impl View for PacketPayload {
    type V = PayloadView;

    open spec fn view(&self) -> PayloadView {
        match self {
            PacketPayload::Connect(p) => PayloadView::Connect(p@),
            PacketPayload::ConnAck(p) => PayloadView::ConnAck(p@),
            PacketPayload::Publish(p) => PayloadView::Publish(p@),
            PacketPayload::PubAck(p) => PayloadView::PubAck(p@),
            PacketPayload::PubRec(p) => PayloadView::PubRec(p@),
            PacketPayload::PubRel(p) => PayloadView::PubRel(p@),
            PacketPayload::PubComp(p) => PayloadView::PubComp(p@),
            PacketPayload::Subscribe(p) => PayloadView::Subscribe(p@),
            PacketPayload::SubAck(p) => PayloadView::SubAck(p@),
            PacketPayload::Unsubscribe(p) => PayloadView::Unsubscribe(p@),
            PacketPayload::UnsubAck(p) => PayloadView::UnsubAck(p@),
            PacketPayload::PingReq => PayloadView::PingReq,
            PacketPayload::PingResp => PayloadView::PingResp,
            PacketPayload::Disconnect(p) => PayloadView::Disconnect(p@),
            PacketPayload::Auth(p) => PayloadView::Auth(p@),
        }
    }
}

/// Abstract value of a `Packet`.
pub struct PacketView {
    pub header: PacketHeader,
    pub payload: PayloadView,
}

impl View for Packet {
    type V = PacketView;

    open spec fn view(&self) -> PacketView {
        PacketView { header: self.header, payload: self.payload@ }
    }
}

} // verus!
