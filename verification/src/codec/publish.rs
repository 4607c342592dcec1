//! PUBLISH and its acknowledgments: PUBACK, PUBREC, PUBREL, PUBCOMP.

use vstd::prelude::*;
use vstd::utf8::encode_utf8;
use bytes::BytesMut;
use crate::buffer::{
    bytes_mut_contents, bytes_contents, buffer_limit, be16, be16_value, bm_len, bm_put_u8,
    bm_put_u16, bm_put_slice, bm_split_to, bm_freeze, bytes_new, bytes_as_slice,
};
use crate::error::{Error, Result};
use crate::types::properties::{PublishProperties, PublishPropertiesView};
use crate::types::packet::{PacketHeader, PacketPayload, PayloadView};
use crate::types::publish::{
    PublishPacket, PublishPacketView, AckView, PubAckPacket, PubRecPacket, PubRelPacket,
    PubCompPacket,
};
use super::spec::{Out, Decoded, DecodeFault, then, piece, string_field, read_string, outcome, settled};
use super::utils::{encode_string, take_u8, take_u16, take_string, settle};
use super::properties::encode_publish_properties;

verus! {

// ---------------------------------------------------------------------------
// PUBLISH
// ---------------------------------------------------------------------------

/// The packet identifier's bytes, when there is one.
pub open spec fn opt_id_bytes(id: Option<u16>) -> Seq<u8> {
    match id {
        Some(x) => be16(x),
        None => Seq::empty(),
    }
}

/// The encoded PUBLISH payload: the topic, the packet ID when present, then
/// the application payload. Publish properties are not put on the wire.
pub open spec fn publish_out(p: PublishPacketView) -> Out {
    then(piece(string_field(p.topic_name)), Some(opt_id_bytes(p.packet_id) + p.payload))
}

/// On the wire a PUBLISH payload is the topic's UTF-8 length as two bytes,
/// high byte first, and its UTF-8 bytes; then the packet ID as two bytes,
/// high byte first, when there is one; then the application payload byte
/// for byte. A topic longer than 65535 bytes cannot be encoded.
pub proof fn lemma_publish_bytes(p: PublishPacketView)
    ensures
        ({
            let u = encode_utf8(p.topic_name);
            let id_bytes = match p.packet_id {
                Some(id) => seq![(id / 256) as u8, (id % 256) as u8],
                None => Seq::<u8>::empty(),
            };
            &&& u.len() <= 65535 ==> publish_out(p) == (seq![(u.len() / 256) as u8, (u.len() % 256) as u8] + u
                + id_bytes + p.payload, true)
            &&& u.len() > 65535 ==> !publish_out(p).1
        }),
{
    let u = encode_utf8(p.topic_name);
    if u.len() <= 65535 {
        let id_bytes = match p.packet_id {
            Some(id) => seq![(id / 256) as u8, (id % 256) as u8],
            None => Seq::<u8>::empty(),
        };
        assert(opt_id_bytes(p.packet_id) == id_bytes);
        assert(seq![(u.len() / 256) as u8, (u.len() % 256) as u8] + u + id_bytes + p.payload
            =~= seq![(u.len() / 256) as u8, (u.len() % 256) as u8] + u + (id_bytes + p.payload));
    }
}

/// Reading a PUBLISH payload under a header with QoS `qos`: the topic, a
/// packet ID when the QoS is above 0, and everything left as the
/// application payload. Under MQTT 5.0 the packet gets empty properties.
pub open spec fn publish_dec(qos: u8, s: Seq<u8>, version: u8) -> Decoded<PublishPacketView> {
    match read_string(s) {
        Decoded::Value(topic, s1) => if qos > 0 && s1.len() < 2 {
            Decoded::Truncated
        } else {
            Decoded::Value(
                PublishPacketView {
                    topic_name: topic,
                    packet_id: if qos > 0 { Some(be16_value(s1[0], s1[1])) } else { None },
                    payload: if qos > 0 { s1.skip(2) } else { s1 },
                    properties: if version == 5 { Some(PublishPropertiesView::empty()) } else { None },
                },
                Seq::empty(),
            )
        },
        Decoded::Invalid(r) => Decoded::Invalid(r),
        Decoded::Truncated => Decoded::Truncated,
    }
}

/// The PUBLISH payload as a packet payload.
pub open spec fn publish_payload_dec(qos: u8, s: Seq<u8>, version: u8) -> Decoded<PayloadView> {
    match publish_dec(qos, s, version) {
        Decoded::Value(p, r) => Decoded::Value(PayloadView::Publish(p), r),
        Decoded::Invalid(r) => Decoded::Invalid(r),
        Decoded::Truncated => Decoded::Truncated,
    }
}

/// Encodes a PUBLISH payload; fails, after writing nothing, when the topic
/// is too long.
pub fn encode_publish(publish: &PublishPacket, buf: &mut BytesMut, protocol_version: u8) -> (r: Result<()>)
    requires
        bytes_mut_contents(*old(buf)).len() + publish_out(publish@).0.len() <= buffer_limit(),
    ensures
        bytes_mut_contents(*final(buf)) == bytes_mut_contents(*old(buf)) + publish_out(publish@).0,
        r is Ok <==> publish_out(publish@).1,
        r is Err ==> r matches Err(Error::InvalidPacket(_)),
{
    let ghost b0 = bytes_mut_contents(*buf);
    let r = encode_string(publish.topic_name.as_str(), buf);
    if r.is_err() {
        return r;
    }
    if let Some(id) = publish.packet_id {
        bm_put_u16(buf, id);
    }
    if protocol_version == 5 {
        if let Some(p) = &publish.properties {
            let _ = encode_publish_properties(p, buf);
        }
    }
    bm_put_slice(buf, bytes_as_slice(&publish.payload));
    assert(bytes_mut_contents(*buf) =~= b0 + publish_out(publish@).0);
    Ok(())
}

/// Reads a PUBLISH payload, reporting a payload that ends where a
/// fixed-size field is due as `Truncated` instead of failing on it.
pub fn take_publish(header: &PacketHeader, buf: &mut BytesMut, protocol_version: u8) -> (r: std::result::Result<PublishPacket, DecodeFault>)
    ensures
        outcome(publish_dec(header.qos, bytes_mut_contents(*old(buf)), protocol_version), r, |p: PublishPacket| p@, bytes_mut_contents(*final(buf))),
{
    let topic_name = match take_string(buf) {
        Ok(s) => s,
        Err(e) => return Err(e),
    };
    let packet_id = if header.qos > 0 {
        match take_u16(buf) {
            Ok(v) => Some(v),
            Err(e) => return Err(e),
        }
    } else {
        None
    };
    let properties = if protocol_version == 5 {
        Some(PublishProperties::new())
    } else {
        None
    };
    let ghost left = bytes_mut_contents(*buf);
    let payload = if bm_len(buf) == 0 {
        let b = bytes_new();
        assert(bytes_contents(b) =~= left);
        b
    } else {
        let n = bm_len(buf);
        let b = bm_freeze(bm_split_to(buf, n));
        assert(bytes_contents(b) =~= left);
        b
    };
    assert(bytes_mut_contents(*buf) =~= Seq::<u8>::empty());
    Ok(PublishPacket { topic_name, packet_id, payload, properties })
}

/// Decodes a PUBLISH payload; the rest of the buffer is the application
/// payload.
pub fn decode_publish(header: &PacketHeader, buf: &mut BytesMut, protocol_version: u8) -> (r: Result<PacketPayload>)
    ensures
        settled(publish_payload_dec(header.qos, bytes_mut_contents(*old(buf)), protocol_version), r, |p: PacketPayload| p@, bytes_mut_contents(*final(buf))),
{
    match take_publish(header, buf, protocol_version) {
        Ok(p) => Ok(PacketPayload::Publish(p)),
        Err(e) => settle(Err(e)),
    }
}

// ---------------------------------------------------------------------------
// PUBACK, PUBREC, PUBREL, PUBCOMP
// ---------------------------------------------------------------------------

/// The encoded acknowledgment: the packet ID, then under MQTT 5.0 the
/// reason code when there is one.
pub open spec fn ack_out(a: AckView, version: u8) -> Out {
    (
        be16(a.packet_id) + if version == 5 && a.reason_code is Some {
            seq![a.reason_code.unwrap()]
        } else {
            Seq::empty()
        },
        true,
    )
}

/// On the wire an acknowledgment is its packet ID as two bytes, high byte
/// first, followed under MQTT 5.0 by its reason code when it has one;
/// under MQTT 3.1 and 3.1.1 it is the two ID bytes alone.
pub proof fn lemma_ack_bytes(a: AckView, version: u8)
    ensures
        ack_out(a, version).1,
        version == 5 && a.reason_code is Some ==> ack_out(a, version).0 == seq![
            (a.packet_id / 256) as u8,
            (a.packet_id % 256) as u8,
            a.reason_code.unwrap(),
        ],
        !(version == 5 && a.reason_code is Some) ==> ack_out(a, version).0 == seq![
            (a.packet_id / 256) as u8,
            (a.packet_id % 256) as u8,
        ],
{
    if version == 5 && a.reason_code is Some {
        assert(ack_out(a, version).0 =~= seq![
            (a.packet_id / 256) as u8,
            (a.packet_id % 256) as u8,
            a.reason_code.unwrap(),
        ]);
    } else {
        assert(ack_out(a, version).0 =~= seq![(a.packet_id / 256) as u8, (a.packet_id % 256) as u8]);
    }
}

/// Reading an acknowledgment: the packet ID, then under MQTT 5.0 a reason
/// code when a byte is left. Properties are not read.
pub open spec fn ack_dec(s: Seq<u8>, version: u8) -> Decoded<AckView> {
    if s.len() < 2 {
        Decoded::Truncated
    } else if version == 5 && s.len() > 2 {
        Decoded::Value(
            AckView { packet_id: be16_value(s[0], s[1]), reason_code: Some(s[2]), has_properties: false },
            s.skip(3),
        )
    } else {
        Decoded::Value(
            AckView { packet_id: be16_value(s[0], s[1]), reason_code: None, has_properties: false },
            s.skip(2),
        )
    }
}

/// Appends an acknowledgment's packet ID and, under MQTT 5.0, its reason
/// code.
fn put_ack(buf: &mut BytesMut, packet_id: u16, reason_code: Option<u8>, protocol_version: u8)
    requires
        bytes_mut_contents(*old(buf)).len() + 3 <= buffer_limit(),
    ensures
        bytes_mut_contents(*final(buf)) == bytes_mut_contents(*old(buf)) + ack_out(
            AckView { packet_id, reason_code, has_properties: false },
            protocol_version,
        ).0,
{
    let ghost b0 = bytes_mut_contents(*buf);
    bm_put_u16(buf, packet_id);
    if protocol_version == 5 {
        if let Some(code) = reason_code {
            bm_put_u8(buf, code);
        }
    }
    assert(bytes_mut_contents(*buf) =~= b0 + ack_out(
        AckView { packet_id, reason_code, has_properties: false },
        protocol_version,
    ).0);
}

/// Reads an acknowledgment's packet ID and reason code.
fn take_ack(buf: &mut BytesMut, protocol_version: u8) -> (r: std::result::Result<(u16, Option<u8>), DecodeFault>)
    ensures
        outcome(
            ack_dec(bytes_mut_contents(*old(buf)), protocol_version),
            r,
            |x: (u16, Option<u8>)| AckView { packet_id: x.0, reason_code: x.1, has_properties: false },
            bytes_mut_contents(*final(buf)),
        ),
{
    let ghost s0 = bytes_mut_contents(*buf);
    let packet_id = match take_u16(buf) {
        Ok(v) => v,
        Err(e) => return Err(e),
    };
    let reason_code = if protocol_version == 5 && bm_len(buf) > 0 {
        match take_u8(buf) {
            Ok(v) => Some(v),
            Err(e) => return Err(e),
        }
    } else {
        None
    };
    proof {
        if protocol_version == 5 && s0.len() > 2 {
            assert(bytes_mut_contents(*buf) =~= s0.skip(3));
        }
    }
    Ok((packet_id, reason_code))
}

/// Encodes a PUBACK payload.
pub fn encode_puback(puback: &PubAckPacket, buf: &mut BytesMut, protocol_version: u8) -> (r: Result<()>)
    requires
        bytes_mut_contents(*old(buf)).len() + 3 <= buffer_limit(),
    ensures
        bytes_mut_contents(*final(buf)) == bytes_mut_contents(*old(buf)) + ack_out(
            puback@,
            protocol_version,
        ).0,
        r is Ok,
{
    put_ack(buf, puback.packet_id, puback.reason_code, protocol_version);
    Ok(())
}

/// Decodes a PUBACK payload.
pub fn decode_puback(buf: &mut BytesMut, protocol_version: u8) -> (r: Result<PacketPayload>)
    requires
        bytes_mut_contents(*old(buf)).len() >= 2,
    ensures
        match ack_dec(bytes_mut_contents(*old(buf)), protocol_version) {
            Decoded::Value(a, rest) => (r matches Ok(p) && p@ == PayloadView::PubAck(a))
                && bytes_mut_contents(*final(buf)) == rest,
            _ => false,
        },
{
    match take_ack(buf, protocol_version) {
        Ok((packet_id, reason_code)) => Ok(
            PacketPayload::PubAck(PubAckPacket { packet_id, reason_code, properties: None }),
        ),
        Err(e) => settle(Err(e)),
    }
}

/// Encodes a PUBREC payload.
pub fn encode_pubrec(pubrec: &PubRecPacket, buf: &mut BytesMut, protocol_version: u8) -> (r: Result<()>)
    requires
        bytes_mut_contents(*old(buf)).len() + 3 <= buffer_limit(),
    ensures
        bytes_mut_contents(*final(buf)) == bytes_mut_contents(*old(buf)) + ack_out(
            pubrec@,
            protocol_version,
        ).0,
        r is Ok,
{
    put_ack(buf, pubrec.packet_id, pubrec.reason_code, protocol_version);
    Ok(())
}

/// Decodes a PUBREC payload.
pub fn decode_pubrec(buf: &mut BytesMut, protocol_version: u8) -> (r: Result<PacketPayload>)
    requires
        bytes_mut_contents(*old(buf)).len() >= 2,
    ensures
        match ack_dec(bytes_mut_contents(*old(buf)), protocol_version) {
            Decoded::Value(a, rest) => (r matches Ok(p) && p@ == PayloadView::PubRec(a))
                && bytes_mut_contents(*final(buf)) == rest,
            _ => false,
        },
{
    match take_ack(buf, protocol_version) {
        Ok((packet_id, reason_code)) => Ok(
            PacketPayload::PubRec(PubRecPacket { packet_id, reason_code, properties: None }),
        ),
        Err(e) => settle(Err(e)),
    }
}

/// Encodes a PUBREL payload.
pub fn encode_pubrel(pubrel: &PubRelPacket, buf: &mut BytesMut, protocol_version: u8) -> (r: Result<()>)
    requires
        bytes_mut_contents(*old(buf)).len() + 3 <= buffer_limit(),
    ensures
        bytes_mut_contents(*final(buf)) == bytes_mut_contents(*old(buf)) + ack_out(
            pubrel@,
            protocol_version,
        ).0,
        r is Ok,
{
    put_ack(buf, pubrel.packet_id, pubrel.reason_code, protocol_version);
    Ok(())
}

/// Decodes a PUBREL payload.
pub fn decode_pubrel(buf: &mut BytesMut, protocol_version: u8) -> (r: Result<PacketPayload>)
    requires
        bytes_mut_contents(*old(buf)).len() >= 2,
    ensures
        match ack_dec(bytes_mut_contents(*old(buf)), protocol_version) {
            Decoded::Value(a, rest) => (r matches Ok(p) && p@ == PayloadView::PubRel(a))
                && bytes_mut_contents(*final(buf)) == rest,
            _ => false,
        },
{
    match take_ack(buf, protocol_version) {
        Ok((packet_id, reason_code)) => Ok(
            PacketPayload::PubRel(PubRelPacket { packet_id, reason_code, properties: None }),
        ),
        Err(e) => settle(Err(e)),
    }
}

/// Encodes a PUBCOMP payload.
pub fn encode_pubcomp(pubcomp: &PubCompPacket, buf: &mut BytesMut, protocol_version: u8) -> (r: Result<()>)
    requires
        bytes_mut_contents(*old(buf)).len() + 3 <= buffer_limit(),
    ensures
        bytes_mut_contents(*final(buf)) == bytes_mut_contents(*old(buf)) + ack_out(
            pubcomp@,
            protocol_version,
        ).0,
        r is Ok,
{
    put_ack(buf, pubcomp.packet_id, pubcomp.reason_code, protocol_version);
    Ok(())
}

/// Decodes a PUBCOMP payload.
pub fn decode_pubcomp(buf: &mut BytesMut, protocol_version: u8) -> (r: Result<PacketPayload>)
    requires
        bytes_mut_contents(*old(buf)).len() >= 2,
    ensures
        match ack_dec(bytes_mut_contents(*old(buf)), protocol_version) {
            Decoded::Value(a, rest) => (r matches Ok(p) && p@ == PayloadView::PubComp(a))
                && bytes_mut_contents(*final(buf)) == rest,
            _ => false,
        },
{
    match take_ack(buf, protocol_version) {
        Ok((packet_id, reason_code)) => Ok(
            PacketPayload::PubComp(PubCompPacket { packet_id, reason_code, properties: None }),
        ),
        Err(e) => settle(Err(e)),
    }
}

/// Reads one of the four acknowledgments (`kind` 4 to 7 for PUBACK, PUBREC,
/// PUBREL, PUBCOMP), reporting a missing packet ID as `Truncated`.
pub fn take_ack_payload(kind: u8, buf: &mut BytesMut, protocol_version: u8) -> (r: std::result::Result<PacketPayload, DecodeFault>)
    requires
        4 <= kind <= 7,
    ensures
        outcome(
            ack_payload_dec(kind, bytes_mut_contents(*old(buf)), protocol_version),
            r,
            |p: PacketPayload| p@,
            bytes_mut_contents(*final(buf)),
        ),
{
    match take_ack(buf, protocol_version) {
        Ok((packet_id, reason_code)) => {
            if kind == 4 {
                Ok(PacketPayload::PubAck(PubAckPacket { packet_id, reason_code, properties: None }))
            } else if kind == 5 {
                Ok(PacketPayload::PubRec(PubRecPacket { packet_id, reason_code, properties: None }))
            } else if kind == 6 {
                Ok(PacketPayload::PubRel(PubRelPacket { packet_id, reason_code, properties: None }))
            } else {
                Ok(PacketPayload::PubComp(PubCompPacket { packet_id, reason_code, properties: None }))
            }
        },
        Err(e) => Err(e),
    }
}

/// The acknowledgment of packet type `kind` (4 to 7) as a packet payload.
pub open spec fn ack_payload_dec(kind: u8, s: Seq<u8>, version: u8) -> Decoded<PayloadView> {
    match ack_dec(s, version) {
        Decoded::Value(a, r) => Decoded::Value(
            if kind == 4 {
                PayloadView::PubAck(a)
            } else if kind == 5 {
                PayloadView::PubRec(a)
            } else if kind == 6 {
                PayloadView::PubRel(a)
            } else {
                PayloadView::PubComp(a)
            },
            r,
        ),
        Decoded::Invalid(r) => Decoded::Invalid(r),
        Decoded::Truncated => Decoded::Truncated,
    }
}

} // verus!
