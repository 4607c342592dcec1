//! The control packets a client or a broker sends in reply: fixed headers
//! with no flags and payloads without properties.

use vstd::prelude::*;
use super::packet::{PacketType, PacketHeader, Packet, PacketView, PacketPayload, PayloadView};
use super::connect::{ConnAckPacket, ConnAckPacketView, ConnectReturnCode, DisconnectPacket, DisconnectPacketView};
use super::publish::{AckView, PubAckPacket, PubRecPacket, PubRelPacket, PubCompPacket};

verus! {

/// A fixed header of type `t` with QoS `qos`, no DUP or RETAIN, and a
/// remaining length left for the encoder.
pub open spec fn plain_header(t: PacketType, qos: u8) -> PacketHeader {
    PacketHeader { packet_type: t, dup: false, qos, retain: false, remaining_length: 0 }
}

/// The fixed header of type `t` with QoS `qos` and no other flag.
pub fn header(t: PacketType, qos: u8) -> (r: PacketHeader)
    ensures
        r == plain_header(t, qos),
{
    PacketHeader { packet_type: t, dup: false, qos, retain: false, remaining_length: 0 }
}

/// An acknowledgment of `packet_id` without reason code or properties.
pub open spec fn plain_ack(packet_id: u16) -> AckView {
    AckView { packet_id, reason_code: None, has_properties: false }
}

/// A CONNACK with `return_code` and the session-present flag.
pub fn connack_packet(return_code: ConnectReturnCode, session_present: bool) -> (r: Packet)
    ensures
        r@ == (PacketView {
            header: plain_header(PacketType::ConnAck, 0),
            payload: PayloadView::ConnAck(ConnAckPacketView { session_present, return_code, properties: None }),
        }),
{
    Packet {
        header: header(PacketType::ConnAck, 0),
        payload: PacketPayload::ConnAck(ConnAckPacket { session_present, return_code, properties: None }),
    }
}

/// A PUBACK for `packet_id`.
pub fn puback_packet(packet_id: u16) -> (r: Packet)
    ensures
        r@ == (PacketView { header: plain_header(PacketType::PubAck, 0), payload: PayloadView::PubAck(plain_ack(packet_id)) }),
{
    Packet {
        header: header(PacketType::PubAck, 0),
        payload: PacketPayload::PubAck(PubAckPacket { packet_id, reason_code: None, properties: None }),
    }
}

/// A PUBREC for `packet_id`.
pub fn pubrec_packet(packet_id: u16) -> (r: Packet)
    ensures
        r@ == (PacketView { header: plain_header(PacketType::PubRec, 0), payload: PayloadView::PubRec(plain_ack(packet_id)) }),
{
    Packet {
        header: header(PacketType::PubRec, 0),
        payload: PacketPayload::PubRec(PubRecPacket { packet_id, reason_code: None, properties: None }),
    }
}

/// A PUBREL for `packet_id`; PUBREL travels at QoS 1.
pub fn pubrel_packet(packet_id: u16) -> (r: Packet)
    ensures
        r@ == (PacketView { header: plain_header(PacketType::PubRel, 1), payload: PayloadView::PubRel(plain_ack(packet_id)) }),
{
    Packet {
        header: header(PacketType::PubRel, 1),
        payload: PacketPayload::PubRel(PubRelPacket { packet_id, reason_code: None, properties: None }),
    }
}

/// A PUBCOMP for `packet_id`.
pub fn pubcomp_packet(packet_id: u16) -> (r: Packet)
    ensures
        r@ == (PacketView { header: plain_header(PacketType::PubComp, 0), payload: PayloadView::PubComp(plain_ack(packet_id)) }),
{
    Packet {
        header: header(PacketType::PubComp, 0),
        payload: PacketPayload::PubComp(PubCompPacket { packet_id, reason_code: None, properties: None }),
    }
}

/// A PINGRESP.
pub fn pingresp_packet() -> (r: Packet)
    ensures
        r@ == (PacketView { header: plain_header(PacketType::PingResp, 0), payload: PayloadView::PingResp }),
{
    Packet { header: header(PacketType::PingResp, 0), payload: PacketPayload::PingResp }
}

/// A DISCONNECT without reason code or properties.
pub fn disconnect_packet() -> (r: Packet)
    ensures
        r@ == (PacketView {
            header: plain_header(PacketType::Disconnect, 0),
            payload: PayloadView::Disconnect(DisconnectPacketView { reason_code: None, has_properties: false }),
        }),
{
    Packet {
        header: header(PacketType::Disconnect, 0),
        payload: PacketPayload::Disconnect(DisconnectPacket { reason_code: None, properties: None }),
    }
}

} // verus!
