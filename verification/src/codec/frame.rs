//! The packet codec: fixed header, remaining length and payload.

use vstd::prelude::*;
use bytes::{Bytes, BytesMut};
use crate::buffer::{
    bytes_mut_contents, bytes_contents, buffer_limit, bm_new, bm_len, bm_put_u8, bm_get_u8,
    bm_split_to, bm_freeze, bm_extend_from_slice, bm_as_slice, bm_byte_at, bm_advance,
};
use crate::error::{Error, Result};
use crate::text::owned;
use crate::types::packet::{PacketType, PacketHeader, Packet, PacketView, PacketPayload, PayloadView};
use crate::types::connect::{DisconnectPacket, DisconnectPacketView, AuthPacket};
use super::spec::{
    Out, Decoded, DecodeFault, start, map_dec, rl_encode, rl_decode, rl_malformed, max_remaining_length,
    outcome,
};
use super::utils::{encode_remaining_length, peek_remaining_length, lemma_remaining_length_roundtrip};
use super::connect::{
    connect_out, connect_payload_dec, connack_out, connack_payload_dec, encode_connect,
    take_connect, encode_connack, take_connack,
};
use super::publish::{
    publish_out, publish_payload_dec, ack_out, ack_payload_dec, encode_publish, take_publish,
    encode_puback, encode_pubrec, encode_pubrel, encode_pubcomp, take_ack_payload,
};
use super::subscribe::{
    subscribe_out, subscribe_dec, suback_out, suback_dec, unsubscribe_out, unsubscribe_dec,
    unsuback_out, unsuback_dec, encode_subscribe, take_subscribe, encode_suback, take_suback,
    encode_unsubscribe, take_unsubscribe, encode_unsuback, take_unsuback,
};

verus! {

/// The encoded payload of a packet. PINGREQ, PINGRESP, DISCONNECT and AUTH
/// have none.
pub open spec fn payload_out(p: PayloadView, version: u8) -> Out {
    match p {
        PayloadView::Connect(c) => connect_out(c, version),
        PayloadView::ConnAck(c) => connack_out(c, version),
        PayloadView::Publish(x) => publish_out(x),
        PayloadView::PubAck(a) => ack_out(a, version),
        PayloadView::PubRec(a) => ack_out(a, version),
        PayloadView::PubRel(a) => ack_out(a, version),
        PayloadView::PubComp(a) => ack_out(a, version),
        PayloadView::Subscribe(x) => subscribe_out(x),
        PayloadView::SubAck(x) => suback_out(x),
        PayloadView::Unsubscribe(x) => unsubscribe_out(x),
        PayloadView::UnsubAck(x) => unsuback_out(x, version),
        PayloadView::PingReq => start(),
        PayloadView::PingResp => start(),
        PayloadView::Disconnect(_) => start(),
        PayloadView::Auth(_) => start(),
    }
}

/// The first byte of the fixed header: the packet type in the high nibble,
/// then DUP (bit 3), QoS (bits 1-2) and RETAIN (bit 0).
pub open spec fn header_byte(h: PacketHeader) -> u8 {
    (h.packet_type.spec_code() << 4u8) | (if h.dup { 0x08u8 } else { 0u8 }) | ((h.qos & 0x03u8) << 1u8)
        | (if h.retain { 0x01u8 } else { 0u8 })
}

/// The header byte carries the packet type's code in its high four bits,
/// DUP in bit 3, the QoS (0 to 3) in bits 1 and 2, and RETAIN in bit 0.
pub proof fn lemma_header_byte_fields(h: PacketHeader)
    requires
        h.qos <= 3,
    ensures
        header_byte(h) >> 4u8 == h.packet_type.spec_code(),
        ((header_byte(h) & 0x08u8) != 0) == h.dup,
        (header_byte(h) & 0x06u8) >> 1u8 == h.qos,
        ((header_byte(h) & 0x01u8) != 0) == h.retain,
{
    super::roundtrip::lemma_header_bits(h.packet_type.spec_code(), h.dup, h.qos, h.retain);
}

/// The encoded packet: the header byte, the payload's length in the
/// variable-length format, then the payload. `None` when the payload fails to
/// encode or is longer than the remaining length allows. The header's own
/// remaining length is not used.
pub open spec fn packet_out(p: PacketView, version: u8) -> Option<Seq<u8>> {
    let body = payload_out(p.payload, version);
    if body.1 && body.0.len() <= max_remaining_length() {
        Some(seq![header_byte(p.header)] + rl_encode(body.0.len()) + body.0)
    } else {
        None
    }
}

/// Reading the payload of a packet with header `h` (AUTH is refused by the
/// caller).
pub open spec fn payload_dec(h: PacketHeader, s: Seq<u8>, version: u8) -> Decoded<PayloadView> {
    match h.packet_type {
        PacketType::Connect => connect_payload_dec(s, version),
        PacketType::ConnAck => connack_payload_dec(s, version),
        PacketType::Publish => publish_payload_dec(h.qos, s, version),
        PacketType::PubAck => ack_payload_dec(4, s, version),
        PacketType::PubRec => ack_payload_dec(5, s, version),
        PacketType::PubRel => ack_payload_dec(6, s, version),
        PacketType::PubComp => ack_payload_dec(7, s, version),
        PacketType::Subscribe => map_dec(subscribe_dec(s), |p| PayloadView::Subscribe(p)),
        PacketType::SubAck => map_dec(suback_dec(s), |p| PayloadView::SubAck(p)),
        PacketType::Unsubscribe => map_dec(unsubscribe_dec(s), |p| PayloadView::Unsubscribe(p)),
        PacketType::UnsubAck => map_dec(unsuback_dec(s, version), |p| PayloadView::UnsubAck(p)),
        PacketType::PingReq => Decoded::Value(PayloadView::PingReq, s),
        PacketType::PingResp => Decoded::Value(PayloadView::PingResp, s),
        PacketType::Disconnect => Decoded::Value(
            PayloadView::Disconnect(DisconnectPacketView { reason_code: None, has_properties: false }),
            s,
        ),
        PacketType::Auth => Decoded::Invalid(s),
    }
}

/// What reading a packet off the front of a buffer gives.
pub enum Frame {
    /// A whole packet, and the bytes after it.
    Packet(PacketView, Seq<u8>),
    /// Not enough bytes yet; these are left, which is all of them.
    Incomplete(Seq<u8>),
    /// A malformed packet; these bytes are left.
    Malformed(Seq<u8>),
    /// An AUTH packet, which is not supported; these bytes are left.
    Unsupported(Seq<u8>),
    /// The payload ends where a fixed-size field is due.
    Truncated,
}

/// The fixed header read from the first byte `first` and remaining length `n`.
pub open spec fn frame_header(t: PacketType, first: u8, n: nat) -> PacketHeader {
    PacketHeader {
        packet_type: t,
        dup: (first & 0x08u8) != 0,
        qos: (first & 0x06u8) >> 1u8,
        retain: (first & 0x01u8) != 0,
        remaining_length: n as usize,
    }
}

/// Reading a packet: the header byte (its high nibble must name a packet
/// type), the remaining length, then exactly that many bytes of payload. A
/// packet is incomplete, and nothing is read, while the buffer ends before
/// the remaining length or the payload does; a remaining length whose
/// fourth byte carries the continuation bit is malformed.
pub open spec fn frame_dec(s: Seq<u8>, version: u8) -> Frame {
    if s.len() < 2 {
        Frame::Incomplete(s)
    } else {
        match PacketType::spec_from_code(s[0] >> 4u8) {
            None => Frame::Malformed(s.skip(1)),
            Some(t) => match rl_decode(s.skip(1)) {
                Decoded::Value(n, u) => if u.len() < n {
                    Frame::Incomplete(s)
                } else if t == PacketType::Auth {
                    Frame::Unsupported(u.skip(n as int))
                } else {
                    match payload_dec(frame_header(t, s[0], n), u.take(n as int), version) {
                        Decoded::Value(pl, _) => Frame::Packet(
                            PacketView { header: frame_header(t, s[0], n), payload: pl },
                            u.skip(n as int),
                        ),
                        Decoded::Invalid(_) => Frame::Malformed(u.skip(n as int)),
                        Decoded::Truncated => Frame::Truncated,
                    }
                },
                Decoded::Invalid(r) => if rl_malformed(s.skip(1)) {
                    Frame::Malformed(r)
                } else {
                    Frame::Incomplete(s)
                },
                Decoded::Truncated => Frame::Truncated,
            },
        }
    }
}

/// MQTT packet encoder/decoder for one protocol version (4 for 3.1.1, 5 for
/// 5.0).
#[derive(Clone, Debug)]
pub struct MqttCodec {
    protocol_version: u8,
}

impl MqttCodec {
    /// The protocol version the codec was made for.
    pub closed spec fn version(&self) -> u8 {
        self.protocol_version
    }

    /// A codec for the given protocol version.
    pub fn new(protocol_version: u8) -> (r: Self)
        ensures
            r.version() == protocol_version,
    {
        MqttCodec { protocol_version }
    }

    /// The protocol version the codec was made for.
    pub fn protocol_version(&self) -> (r: u8)
        ensures
            r == self.version(),
    {
        self.protocol_version
    }

    /// Encodes a packet: header byte, remaining length, payload. Fails when
    /// a field is too long for its length prefix or the payload too long for
    /// the remaining length.
    pub fn encode(&self, packet: &Packet) -> (r: Result<Bytes>)
        requires
            payload_out(packet@.payload, self.version()).0.len() + 5 <= buffer_limit(),
        ensures
            match packet_out(packet@, self.version()) {
                Some(b) => r matches Ok(x) && bytes_contents(x) == b,
                None => r matches Err(Error::InvalidPacket(_)),
            },
    {
        let mut buf = bm_new();
        match self.encode_packet(packet, &mut buf) {
            Ok(()) => Ok(bm_freeze(buf)),
            Err(e) => Err(e),
        }
    }

    /// Writes a whole packet after what `buf` holds.
    fn encode_packet(&self, packet: &Packet, buf: &mut BytesMut) -> (r: Result<()>)
        requires
            bytes_mut_contents(*old(buf)).len() + payload_out(packet@.payload, self.version()).0.len() + 5
                <= buffer_limit(),
        ensures
            match packet_out(packet@, self.version()) {
                Some(b) => r is Ok && bytes_mut_contents(*final(buf)) == bytes_mut_contents(*old(buf)) + b,
                None => r matches Err(Error::InvalidPacket(_)),
            },
    {
        let ghost b0 = bytes_mut_contents(*buf);
        let h = &packet.header;
        let first_byte: u8 = (h.packet_type.to_u8() << 4u8) | (if h.dup { 0x08u8 } else { 0u8 })
            | ((h.qos & 0x03u8) << 1u8) | (if h.retain { 0x01u8 } else { 0u8 });
        bm_put_u8(buf, first_byte);
        let mut payload_buf = bm_new();
        proof {
            assert(bytes_mut_contents(payload_buf) + payload_out(packet@.payload, self.version()).0
                =~= payload_out(packet@.payload, self.version()).0);
        }
        match self.encode_payload(&packet.payload, &mut payload_buf) {
            Ok(()) => {},
            Err(e) => return Err(e),
        }
        let ghost body = bytes_mut_contents(payload_buf);
        assert(body =~= payload_out(packet@.payload, self.version()).0);
        let payload_len = bm_len(&payload_buf);
        proof {
            if payload_len <= max_remaining_length() {
                lemma_remaining_length_roundtrip(payload_len as nat, Seq::empty());
            }
        }
        match encode_remaining_length(payload_len, buf) {
            Ok(()) => {},
            Err(e) => return Err(e),
        }
        bm_extend_from_slice(buf, bm_as_slice(&payload_buf));
        proof {
            assert(bytes_mut_contents(*buf) =~= b0 + (seq![first_byte] + rl_encode(payload_len as nat) + body));
        }
        Ok(())
    }

    /// Writes the payload of a packet after what `buf` holds.
    fn encode_payload(&self, payload: &PacketPayload, buf: &mut BytesMut) -> (r: Result<()>)
        requires
            bytes_mut_contents(*old(buf)).len() + payload_out(payload@, self.version()).0.len() + 3
                <= buffer_limit(),
        ensures
            bytes_mut_contents(*final(buf)) == bytes_mut_contents(*old(buf)) + payload_out(payload@, self.version()).0,
            r is Ok <==> payload_out(payload@, self.version()).1,
            r is Err ==> r matches Err(Error::InvalidPacket(_)),
    {
        let v = self.protocol_version;
        match payload {
            PacketPayload::Connect(c) => encode_connect(c, buf, v),
            PacketPayload::ConnAck(c) => encode_connack(c, buf, v),
            PacketPayload::Publish(p) => encode_publish(p, buf, v),
            PacketPayload::PubAck(a) => encode_puback(a, buf, v),
            PacketPayload::PubRec(a) => encode_pubrec(a, buf, v),
            PacketPayload::PubRel(a) => encode_pubrel(a, buf, v),
            PacketPayload::PubComp(a) => encode_pubcomp(a, buf, v),
            PacketPayload::Subscribe(s) => encode_subscribe(s, buf, v),
            PacketPayload::SubAck(s) => encode_suback(s, buf, v),
            PacketPayload::Unsubscribe(s) => encode_unsubscribe(s, buf, v),
            PacketPayload::UnsubAck(s) => encode_unsuback(s, buf, v),
            PacketPayload::PingReq => {
                assert(bytes_mut_contents(*buf) =~= bytes_mut_contents(*buf) + Seq::<u8>::empty());
                Ok(())
            },
            PacketPayload::PingResp => {
                assert(bytes_mut_contents(*buf) =~= bytes_mut_contents(*buf) + Seq::<u8>::empty());
                Ok(())
            },
            PacketPayload::Disconnect(d) => self.encode_disconnect(d, buf),
            PacketPayload::Auth(a) => self.encode_auth(a, buf),
        }
    }

    /// DISCONNECT has no payload on the wire.
    fn encode_disconnect(&self, disconnect: &DisconnectPacket, buf: &mut BytesMut) -> (r: Result<()>)
        ensures
            bytes_mut_contents(*final(buf)) == bytes_mut_contents(*old(buf)) + Seq::<u8>::empty(),
            r is Ok,
    {
        assert(bytes_mut_contents(*buf) =~= bytes_mut_contents(*buf) + Seq::<u8>::empty());
        Ok(())
    }

    /// AUTH is not put on the wire beyond its fixed header.
    fn encode_auth(&self, auth: &AuthPacket, buf: &mut BytesMut) -> (r: Result<()>)
        ensures
            bytes_mut_contents(*final(buf)) == bytes_mut_contents(*old(buf)) + Seq::<u8>::empty(),
            r is Ok,
    {
        assert(bytes_mut_contents(*buf) =~= bytes_mut_contents(*buf) + Seq::<u8>::empty());
        Ok(())
    }

    /// DISCONNECT reads nothing and has no reason code or properties.
    fn decode_disconnect(&self, buf: &mut BytesMut) -> (r: std::result::Result<PacketPayload, DecodeFault>)
        ensures
            bytes_mut_contents(*final(buf)) == bytes_mut_contents(*old(buf)),
            r matches Ok(p) && p@ == PayloadView::Disconnect(DisconnectPacketView { reason_code: None, has_properties: false }),
    {
        Ok(PacketPayload::Disconnect(DisconnectPacket { reason_code: None, properties: None }))
    }

    /// AUTH is refused.
    fn decode_auth(&self, buf: &mut BytesMut) -> (r: std::result::Result<PacketPayload, DecodeFault>)
        ensures
            bytes_mut_contents(*final(buf)) == bytes_mut_contents(*old(buf)),
            r matches Err(DecodeFault::Malformed(Error::Protocol(m))) && m@ == "Auth not implemented"@,
    {
        Err(DecodeFault::Malformed(Error::Protocol(owned("Auth not implemented"))))
    }

    /// Reads the payload of a packet with header `header`.
    fn decode_payload(&self, header: &PacketHeader, buf: &mut BytesMut) -> (r: std::result::Result<PacketPayload, DecodeFault>)
        ensures
            header.packet_type != PacketType::Auth ==> outcome(
                payload_dec(*header, bytes_mut_contents(*old(buf)), self.version()),
                r,
                |p: PacketPayload| p@,
                bytes_mut_contents(*final(buf)),
            ),
            header.packet_type == PacketType::Auth ==> (r matches Err(DecodeFault::Malformed(Error::Protocol(m)))
                && m@ == "Auth not implemented"@),
    {
        let v = self.protocol_version;
        match header.packet_type {
            PacketType::Connect => match take_connect(buf, v) {
                Ok(c) => Ok(PacketPayload::Connect(c)),
                Err(e) => Err(e),
            },
            PacketType::ConnAck => match take_connack(buf, v) {
                Ok(c) => Ok(PacketPayload::ConnAck(c)),
                Err(e) => Err(e),
            },
            PacketType::Publish => match take_publish(header, buf, v) {
                Ok(p) => Ok(PacketPayload::Publish(p)),
                Err(e) => Err(e),
            },
            PacketType::PubAck => take_ack_payload(4, buf, v),
            PacketType::PubRec => take_ack_payload(5, buf, v),
            PacketType::PubRel => take_ack_payload(6, buf, v),
            PacketType::PubComp => take_ack_payload(7, buf, v),
            PacketType::Subscribe => match take_subscribe(buf) {
                Ok(p) => Ok(PacketPayload::Subscribe(p)),
                Err(e) => Err(e),
            },
            PacketType::SubAck => match take_suback(buf) {
                Ok(p) => Ok(PacketPayload::SubAck(p)),
                Err(e) => Err(e),
            },
            PacketType::Unsubscribe => match take_unsubscribe(buf) {
                Ok(p) => Ok(PacketPayload::Unsubscribe(p)),
                Err(e) => Err(e),
            },
            PacketType::UnsubAck => match take_unsuback(buf, v) {
                Ok(p) => Ok(PacketPayload::UnsubAck(p)),
                Err(e) => Err(e),
            },
            PacketType::PingReq => Ok(PacketPayload::PingReq),
            PacketType::PingResp => Ok(PacketPayload::PingResp),
            PacketType::Disconnect => self.decode_disconnect(buf),
            PacketType::Auth => self.decode_auth(buf),
        }
    }

    /// Reads one packet off the front of `buf`, reporting a truncated
    /// payload instead of failing on it.
    pub fn decode_checked(&self, buf: &mut BytesMut) -> (r: std::result::Result<Option<Packet>, DecodeFault>)
        ensures
            match frame_dec(bytes_mut_contents(*old(buf)), self.version()) {
                Frame::Packet(p, rest) => (r matches Ok(Some(x)) && x@ == p) && bytes_mut_contents(*final(buf)) == rest,
                Frame::Incomplete(rest) => (r matches Ok(None)) && bytes_mut_contents(*final(buf)) == rest,
                Frame::Malformed(rest) => (r matches Err(DecodeFault::Malformed(Error::InvalidPacket(_))))
                    && bytes_mut_contents(*final(buf)) == rest,
                Frame::Unsupported(rest) => (r matches Err(DecodeFault::Malformed(Error::Protocol(m)))
                    && m@ == "Auth not implemented"@) && bytes_mut_contents(*final(buf)) == rest,
                Frame::Truncated => r matches Err(DecodeFault::Truncated),
            },
            ({
                let s0 = bytes_mut_contents(*old(buf));
                &&& (s0.len() >= 2 && PacketType::spec_from_code(s0[0] >> 4u8) is None) ==> (r matches Err(
                    DecodeFault::Malformed(Error::InvalidPacket(m)),
                ) && m@ == "Invalid packet type"@)
                &&& (s0.len() >= 2 && PacketType::spec_from_code(s0[0] >> 4u8) is Some && rl_malformed(s0.skip(1)))
                    ==> (r matches Err(DecodeFault::Malformed(Error::InvalidPacket(m))) && m@
                    == "Malformed remaining length"@)
            }),
    {
        let ghost s0 = bytes_mut_contents(*buf);
        if bm_len(buf) < 2 {
            return Ok(None);
        }
        let first_byte = bm_byte_at(buf, 0);
        let packet_type = match PacketType::from_u8(first_byte >> 4u8) {
            Some(t) => t,
            None => {
                bm_advance(buf, 1);
                return Err(DecodeFault::Malformed(Error::InvalidPacket(owned("Invalid packet type"))));
            },
        };
        let dup = (first_byte & 0x08u8) != 0;
        let qos = (first_byte & 0x06u8) >> 1u8;
        let retain = (first_byte & 0x01u8) != 0;
        let (remaining_length, used) = match peek_remaining_length(buf) {
            Ok(Some(x)) => x,
            Ok(None) => return Ok(None),
            Err(e) => {
                proof {
                    assert(s0.skip(1).skip(4) =~= s0.skip(5));
                }
                bm_advance(buf, 5);
                return Err(DecodeFault::Malformed(e));
            },
        };
        if bm_len(buf) - 1 - used < remaining_length {
            return Ok(None);
        }
        bm_advance(buf, 1 + used);
        proof {
            assert(s0.skip(1).skip(used as int) =~= s0.skip(1 + used));
        }
        let header = PacketHeader { packet_type, dup, qos, retain, remaining_length };
        let ghost u = bytes_mut_contents(*buf);
        let mut payload_buf = if remaining_length > 0 {
            bm_split_to(buf, remaining_length)
        } else {
            bm_new()
        };
        proof {
            assert(bytes_mut_contents(payload_buf) =~= u.take(remaining_length as int));
            assert(bytes_mut_contents(*buf) =~= u.skip(remaining_length as int));
        }
        let payload = match self.decode_payload(&header, &mut payload_buf) {
            Ok(p) => p,
            Err(e) => return Err(e),
        };
        Ok(Some(Packet { header, payload }))
    }

    /// Reads one packet off the front of `buf`. `None`, with the buffer left
    /// as it was, when it does not hold a whole packet yet, so that more
    /// bytes can be appended and the read tried again.
    pub fn decode(&self, buf: &mut BytesMut) -> (r: Result<Option<Packet>>)
        ensures
            match frame_dec(bytes_mut_contents(*old(buf)), self.version()) {
                Frame::Packet(p, rest) => (r matches Ok(Some(x)) && x@ == p) && bytes_mut_contents(*final(buf)) == rest,
                Frame::Incomplete(rest) => (r matches Ok(None)) && bytes_mut_contents(*final(buf)) == rest,
                Frame::Malformed(rest) => (r matches Err(Error::InvalidPacket(_))) && bytes_mut_contents(*final(buf))
                    == rest,
                Frame::Unsupported(rest) => (r matches Err(Error::Protocol(m)) && m@ == "Auth not implemented"@)
                    && bytes_mut_contents(*final(buf)) == rest,
                Frame::Truncated => r matches Err(Error::InvalidPacket(m)) && m@ == "Truncated packet"@,
            },
            ({
                let s0 = bytes_mut_contents(*old(buf));
                &&& (s0.len() >= 2 && PacketType::spec_from_code(s0[0] >> 4u8) is None) ==> (r matches Err(
                    Error::InvalidPacket(m),
                ) && m@ == "Invalid packet type"@)
                &&& (s0.len() >= 2 && PacketType::spec_from_code(s0[0] >> 4u8) is Some && rl_malformed(s0.skip(1)))
                    ==> (r matches Err(Error::InvalidPacket(m)) && m@ == "Malformed remaining length"@)
            }),
    {
        match self.decode_checked(buf) {
            Ok(p) => Ok(p),
            Err(DecodeFault::Malformed(e)) => Err(e),
            Err(DecodeFault::Truncated) => Err(Error::InvalidPacket(owned("Truncated packet"))),
        }
    }
}

} // verus!
