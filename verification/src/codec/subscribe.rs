//! SUBSCRIBE, SUBACK, UNSUBSCRIBE and UNSUBACK payloads.

use vstd::prelude::*;
use vstd::utf8::encode_utf8;
use bytes::BytesMut;
use crate::buffer::{bytes_mut_contents, buffer_limit, be16, be16_value, bm_len, bm_put_u8, bm_put_u16};
use crate::error::{Error, Result};
use crate::types::packet::{PacketPayload, PayloadView};
use crate::types::subscribe::{
    TopicFilter, TopicFilterView, SubscribePacket, SubscribePacketView, SubAckPacket,
    SubAckPacketView, UnsubscribePacket, UnsubscribePacketView, UnsubAckPacket,
    UnsubAckPacketView, filters_view, strings_view,
};
use super::spec::{
    Out, Decoded, DecodeFault, start, then, join, piece, byte_piece, string_field, read_string,
    outcome, settled,
};
use super::fields::{
    join_all, concat_from, lemma_join_all_step, lemma_join_all_extend, lemma_join_all_none, lemma_join_all_full,
    lemma_join_all_concat,
};
use super::utils::{encode_string, take_u8, take_u16, take_string, settle};

verus! {

// ---------------------------------------------------------------------------
// SUBSCRIBE
// ---------------------------------------------------------------------------

/// One topic filter on the wire: the topic, then its QoS byte.
pub open spec fn filter_out(f: TopicFilterView) -> Out {
    then(piece(string_field(f.topic)), byte_piece(f.qos))
}

/// On the wire a topic filter is the topic's UTF-8 length as two bytes,
/// high byte first, its UTF-8 bytes, then one byte with the requested QoS.
/// A topic longer than 65535 bytes cannot be encoded.
pub proof fn lemma_filter_bytes(f: TopicFilterView)
    ensures
        ({
            let u = encode_utf8(f.topic);
            &&& u.len() <= 65535 ==> filter_out(f) == (seq![(u.len() / 256) as u8, (u.len() % 256) as u8] + u + seq![
                f.qos,
            ], true)
            &&& u.len() > 65535 ==> !filter_out(f).1
        }),
{
}

/// The topic filters one after the other.
pub open spec fn filters_parts(s: Seq<TopicFilterView>) -> Seq<Out> {
    s.map_values(|f: TopicFilterView| filter_out(f))
}

/// The encoded SUBSCRIBE payload: the packet ID, then the topic filters.
/// Subscription options other than the QoS are not put on the wire.
pub open spec fn subscribe_out(p: SubscribePacketView) -> Out {
    join((be16(p.packet_id), true), join_all(filters_parts(p.topic_filters)))
}

/// An encoded SUBSCRIBE is its packet ID as two bytes, high byte first,
/// then each topic filter's bytes, in order.
pub proof fn lemma_subscribe_bytes(p: SubscribePacketView)
    ensures
        subscribe_out(p).1 ==> subscribe_out(p).0 == seq![(p.packet_id / 256) as u8, (p.packet_id % 256) as u8]
            + concat_from(filters_parts(p.topic_filters), 0),
{
    if subscribe_out(p).1 {
        lemma_join_all_concat(filters_parts(p.topic_filters));
    }
}

/// A topic filter as read from the wire: the default subscription options.
pub open spec fn wire_filter(topic: Seq<char>, qos: u8) -> TopicFilterView {
    TopicFilterView { topic, qos, no_local: false, retain_as_published: false, retain_handling: 0 }
}

/// Reading topic filters until `s` is used up, after those in `acc`.
pub open spec fn parse_filters(s: Seq<u8>, acc: Seq<TopicFilterView>) -> Decoded<Seq<TopicFilterView>>
    decreases s.len(),
{
    if s.len() == 0 {
        Decoded::Value(acc, s)
    } else {
        match read_string(s) {
            Decoded::Value(topic, r) => if r.len() == 0 {
                Decoded::Truncated
            } else if r.len() - 1 < s.len() {
                parse_filters(r.skip(1), acc.push(wire_filter(topic, r[0])))
            } else {
                Decoded::Invalid(r)
            },
            Decoded::Invalid(r) => Decoded::Invalid(r),
            Decoded::Truncated => Decoded::Truncated,
        }
    }
}

/// Reading a SUBSCRIBE payload: the packet ID, then topic filters to the
/// end.
pub open spec fn subscribe_dec(s: Seq<u8>) -> Decoded<SubscribePacketView> {
    if s.len() < 2 {
        Decoded::Truncated
    } else {
        match parse_filters(s.skip(2), Seq::empty()) {
            Decoded::Value(fs, r) => Decoded::Value(
                SubscribePacketView { packet_id: be16_value(s[0], s[1]), topic_filters: fs, has_properties: false },
                r,
            ),
            Decoded::Invalid(r) => Decoded::Invalid(r),
            Decoded::Truncated => Decoded::Truncated,
        }
    }
}

/// Encodes a SUBSCRIBE payload; fails at the first topic that is too long.
pub fn encode_subscribe(subscribe: &SubscribePacket, buf: &mut BytesMut, protocol_version: u8) -> (r: Result<()>)
    requires
        bytes_mut_contents(*old(buf)).len() + subscribe_out(subscribe@).0.len() <= buffer_limit(),
    ensures
        bytes_mut_contents(*final(buf)) == bytes_mut_contents(*old(buf)) + subscribe_out(subscribe@).0,
        r is Ok <==> subscribe_out(subscribe@).1,
        r is Err ==> r matches Err(Error::InvalidPacket(_)),
{
    let ghost b0 = bytes_mut_contents(*buf);
    let ghost parts = filters_parts(subscribe@.topic_filters);
    bm_put_u16(buf, subscribe.packet_id);
    let ghost base = bytes_mut_contents(*buf);
    proof {
        lemma_join_all_none(parts);
        assert(base =~= base + join_all(parts.take(0)).0);
    }
    let n = subscribe.topic_filters.len();
    let mut i: usize = 0;
    while i < n
        invariant
            n == subscribe.topic_filters@.len(),
            parts == filters_parts(subscribe@.topic_filters),
            parts.len() == n,
            i <= n,
            base == b0 + be16(subscribe.packet_id),
            b0 == bytes_mut_contents(*old(buf)),
            b0.len() + subscribe_out(subscribe@).0.len() <= buffer_limit(),
            join_all(parts.take(i as int)).1,
            bytes_mut_contents(*buf) == base + join_all(parts.take(i as int)).0,
        decreases n - i,
    {
        let f = &subscribe.topic_filters[i];
        proof {
            lemma_join_all_step(parts, i as int);
            assert(parts[i as int] == filter_out(f@));
        }
        let ghost before = bytes_mut_contents(*buf);
        let r = encode_string(f.topic.as_str(), buf);
        if r.is_err() {
            proof {
                assert(bytes_mut_contents(*buf) =~= before + parts[i as int].0);
                lemma_join_all_extend(parts, i as int, base, before, bytes_mut_contents(*buf));
            }
            return r;
        }
        bm_put_u8(buf, f.qos);
        proof {
            assert(bytes_mut_contents(*buf) =~= before + parts[i as int].0);
            lemma_join_all_extend(parts, i as int, base, before, bytes_mut_contents(*buf));
        }
        i = i + 1;
    }
    proof {
        lemma_join_all_full(parts);
        assert(bytes_mut_contents(*buf) =~= b0 + subscribe_out(subscribe@).0);
    }
    Ok(())
}

/// Reads a SUBSCRIBE payload, reporting a payload that ends where a
/// fixed-size field is due as `Truncated` instead of failing on it.
pub fn take_subscribe(buf: &mut BytesMut) -> (r: std::result::Result<SubscribePacket, DecodeFault>)
    ensures
        outcome(subscribe_dec(bytes_mut_contents(*old(buf))), r, |p: SubscribePacket| p@, bytes_mut_contents(*final(buf))),
{
    let ghost s0 = bytes_mut_contents(*buf);
    let packet_id = match take_u16(buf) {
        Ok(v) => v,
        Err(e) => return Err(e),
    };
    let mut topic_filters: Vec<TopicFilter> = Vec::new();
    proof {
        assert(filters_view(topic_filters@) =~= Seq::<TopicFilterView>::empty());
    }
    while bm_len(buf) > 0
        invariant
            s0 == bytes_mut_contents(*old(buf)),
            s0.len() >= 2,
            packet_id == be16_value(s0[0], s0[1]),
            parse_filters(s0.skip(2), Seq::empty()) == parse_filters(
                bytes_mut_contents(*buf),
                filters_view(topic_filters@),
            ),
        decreases bytes_mut_contents(*buf).len(),
    {
        let topic = match take_string(buf) {
            Ok(s) => s,
            Err(e) => return Err(e),
        };
        let qos = match take_u8(buf) {
            Ok(v) => v,
            Err(e) => return Err(e),
        };
        let ghost acc = filters_view(topic_filters@);
        topic_filters.push(TopicFilter {
            topic,
            qos,
            no_local: false,
            retain_as_published: false,
            retain_handling: 0,
        });
        proof {
            assert(filters_view(topic_filters@) =~= acc.push(wire_filter(topic@, qos)));
        }
    }
    Ok(SubscribePacket { packet_id, topic_filters, properties: None })
}

/// Decodes a SUBSCRIBE payload; every topic filter gets the default
/// subscription options.
pub fn decode_subscribe(buf: &mut BytesMut, protocol_version: u8) -> (r: Result<PacketPayload>)
    ensures
        settled(
            match subscribe_dec(bytes_mut_contents(*old(buf))) {
                Decoded::Value(p, rest) => Decoded::Value(PayloadView::Subscribe(p), rest),
                Decoded::Invalid(rest) => Decoded::Invalid(rest),
                Decoded::Truncated => Decoded::Truncated,
            },
            r,
            |p: PacketPayload| p@,
            bytes_mut_contents(*final(buf)),
        ),
{
    match take_subscribe(buf) {
        Ok(p) => Ok(PacketPayload::Subscribe(p)),
        Err(e) => settle(Err(e)),
    }
}

// ---------------------------------------------------------------------------
// SUBACK
// ---------------------------------------------------------------------------

/// The encoded SUBACK payload: the packet ID, then one byte per return code.
pub open spec fn suback_out(p: SubAckPacketView) -> Out {
    (be16(p.packet_id) + p.return_codes, true)
}

/// On the wire a SUBACK is its packet ID as two bytes, high byte first,
/// then one byte per return code, in order.
pub proof fn lemma_suback_bytes(p: SubAckPacketView)
    ensures
        suback_out(p) == (seq![(p.packet_id / 256) as u8, (p.packet_id % 256) as u8] + p.return_codes, true),
{
}

/// Reading a SUBACK payload: the packet ID, then return codes to the end.
pub open spec fn suback_dec(s: Seq<u8>) -> Decoded<SubAckPacketView> {
    if s.len() < 2 {
        Decoded::Truncated
    } else {
        Decoded::Value(
            SubAckPacketView { packet_id: be16_value(s[0], s[1]), return_codes: s.skip(2), has_properties: false },
            Seq::empty(),
        )
    }
}

/// Appends the packet ID and then every code byte.
fn put_id_and_codes(buf: &mut BytesMut, packet_id: u16, codes: &Vec<u8>)
    requires
        bytes_mut_contents(*old(buf)).len() + 2 + codes@.len() <= buffer_limit(),
    ensures
        bytes_mut_contents(*final(buf)) == bytes_mut_contents(*old(buf)) + be16(packet_id) + codes@,
{
    let ghost b0 = bytes_mut_contents(*buf);
    bm_put_u16(buf, packet_id);
    let mut i: usize = 0;
    while i < codes.len()
        invariant
            i <= codes@.len(),
            b0 == bytes_mut_contents(*old(buf)),
            b0.len() + 2 + codes@.len() <= buffer_limit(),
            bytes_mut_contents(*buf) == b0 + be16(packet_id) + codes@.take(i as int),
        decreases codes@.len() - i,
    {
        bm_put_u8(buf, codes[i]);
        i = i + 1;
        assert(bytes_mut_contents(*buf) =~= b0 + be16(packet_id) + codes@.take(i as int));
    }
    assert(codes@.take(codes@.len() as int) =~= codes@);
}

/// Reads every byte left as a code.
fn take_codes(buf: &mut BytesMut) -> (r: Vec<u8>)
    ensures
        r@ == bytes_mut_contents(*old(buf)),
        bytes_mut_contents(*final(buf)) == Seq::<u8>::empty(),
{
    let ghost s0 = bytes_mut_contents(*buf);
    let mut codes: Vec<u8> = Vec::new();
    while bm_len(buf) > 0
        invariant
            s0 == bytes_mut_contents(*old(buf)),
            codes@ + bytes_mut_contents(*buf) == s0,
        decreases bytes_mut_contents(*buf).len(),
    {
        let ghost cur = bytes_mut_contents(*buf);
        let c = crate::buffer::bm_get_u8(buf);
        codes.push(c);
        assert(codes@ + bytes_mut_contents(*buf) =~= s0) by {
            assert(cur =~= seq![c] + bytes_mut_contents(*buf));
        }
    }
    assert(codes@ =~= codes@ + bytes_mut_contents(*buf));
    codes
}

/// Encodes a SUBACK payload.
pub fn encode_suback(suback: &SubAckPacket, buf: &mut BytesMut, protocol_version: u8) -> (r: Result<()>)
    requires
        bytes_mut_contents(*old(buf)).len() + suback_out(suback@).0.len() <= buffer_limit(),
    ensures
        bytes_mut_contents(*final(buf)) == bytes_mut_contents(*old(buf)) + suback_out(suback@).0,
        r is Ok,
{
    let ghost b0 = bytes_mut_contents(*buf);
    put_id_and_codes(buf, suback.packet_id, &suback.return_codes);
    assert(bytes_mut_contents(*buf) =~= b0 + suback_out(suback@).0);
    Ok(())
}

/// Decodes a SUBACK payload.
pub fn decode_suback(buf: &mut BytesMut, protocol_version: u8) -> (r: Result<PacketPayload>)
    requires
        bytes_mut_contents(*old(buf)).len() >= 2,
    ensures
        match suback_dec(bytes_mut_contents(*old(buf))) {
            Decoded::Value(a, rest) => (r matches Ok(p) && p@ == PayloadView::SubAck(a))
                && bytes_mut_contents(*final(buf)) == rest,
            _ => false,
        },
{
    match take_suback(buf) {
        Ok(p) => Ok(PacketPayload::SubAck(p)),
        Err(e) => settle(Err(e)),
    }
}

/// Reads a SUBACK payload, reporting a payload that ends where a
/// fixed-size field is due as `Truncated` instead of failing on it.
pub fn take_suback(buf: &mut BytesMut) -> (r: std::result::Result<SubAckPacket, DecodeFault>)
    ensures
        outcome(suback_dec(bytes_mut_contents(*old(buf))), r, |p: SubAckPacket| p@, bytes_mut_contents(*final(buf))),
{
    let packet_id = match take_u16(buf) {
        Ok(v) => v,
        Err(e) => return Err(e),
    };
    let return_codes = take_codes(buf);
    Ok(SubAckPacket { packet_id, return_codes, properties: None })
}

// ---------------------------------------------------------------------------
// UNSUBSCRIBE
// ---------------------------------------------------------------------------

/// The topics one after the other.
pub open spec fn topics_parts(s: Seq<Seq<char>>) -> Seq<Out> {
    s.map_values(|t: Seq<char>| piece(string_field(t)))
}

/// The encoded UNSUBSCRIBE payload: the packet ID, then the topic filters.
pub open spec fn unsubscribe_out(p: UnsubscribePacketView) -> Out {
    join((be16(p.packet_id), true), join_all(topics_parts(p.topic_filters)))
}

/// An encoded UNSUBSCRIBE is its packet ID as two bytes, high byte first,
/// then each topic's length-prefixed UTF-8 bytes, in order.
pub proof fn lemma_unsubscribe_bytes(p: UnsubscribePacketView)
    ensures
        unsubscribe_out(p).1 ==> unsubscribe_out(p).0 == seq![(p.packet_id / 256) as u8, (p.packet_id % 256) as u8]
            + concat_from(topics_parts(p.topic_filters), 0),
{
    if unsubscribe_out(p).1 {
        lemma_join_all_concat(topics_parts(p.topic_filters));
    }
}

/// Reading topics until `s` is used up, after those in `acc`.
pub open spec fn parse_topics(s: Seq<u8>, acc: Seq<Seq<char>>) -> Decoded<Seq<Seq<char>>>
    decreases s.len(),
{
    if s.len() == 0 {
        Decoded::Value(acc, s)
    } else {
        match read_string(s) {
            Decoded::Value(topic, r) => if r.len() < s.len() {
                parse_topics(r, acc.push(topic))
            } else {
                Decoded::Invalid(r)
            },
            Decoded::Invalid(r) => Decoded::Invalid(r),
            Decoded::Truncated => Decoded::Truncated,
        }
    }
}

/// Reading an UNSUBSCRIBE payload: the packet ID, then topics to the end.
pub open spec fn unsubscribe_dec(s: Seq<u8>) -> Decoded<UnsubscribePacketView> {
    if s.len() < 2 {
        Decoded::Truncated
    } else {
        match parse_topics(s.skip(2), Seq::empty()) {
            Decoded::Value(ts, r) => Decoded::Value(
                UnsubscribePacketView { packet_id: be16_value(s[0], s[1]), topic_filters: ts, has_properties: false },
                r,
            ),
            Decoded::Invalid(r) => Decoded::Invalid(r),
            Decoded::Truncated => Decoded::Truncated,
        }
    }
}

/// Encodes an UNSUBSCRIBE payload; fails at the first topic that is too
/// long.
pub fn encode_unsubscribe(unsubscribe: &UnsubscribePacket, buf: &mut BytesMut, protocol_version: u8) -> (r: Result<()>)
    requires
        bytes_mut_contents(*old(buf)).len() + unsubscribe_out(unsubscribe@).0.len() <= buffer_limit(),
    ensures
        bytes_mut_contents(*final(buf)) == bytes_mut_contents(*old(buf)) + unsubscribe_out(unsubscribe@).0,
        r is Ok <==> unsubscribe_out(unsubscribe@).1,
        r is Err ==> r matches Err(Error::InvalidPacket(_)),
{
    let ghost b0 = bytes_mut_contents(*buf);
    let ghost parts = topics_parts(unsubscribe@.topic_filters);
    bm_put_u16(buf, unsubscribe.packet_id);
    let ghost base = bytes_mut_contents(*buf);
    proof {
        lemma_join_all_none(parts);
        assert(base =~= base + join_all(parts.take(0)).0);
    }
    let n = unsubscribe.topic_filters.len();
    let mut i: usize = 0;
    while i < n
        invariant
            n == unsubscribe.topic_filters@.len(),
            parts == topics_parts(unsubscribe@.topic_filters),
            parts.len() == n,
            i <= n,
            base == b0 + be16(unsubscribe.packet_id),
            b0 == bytes_mut_contents(*old(buf)),
            b0.len() + unsubscribe_out(unsubscribe@).0.len() <= buffer_limit(),
            join_all(parts.take(i as int)).1,
            bytes_mut_contents(*buf) == base + join_all(parts.take(i as int)).0,
        decreases n - i,
    {
        let t = &unsubscribe.topic_filters[i];
        proof {
            lemma_join_all_step(parts, i as int);
            assert(parts[i as int] == piece(string_field(t@)));
        }
        let ghost before = bytes_mut_contents(*buf);
        let r = encode_string(t.as_str(), buf);
        proof {
            lemma_join_all_extend(parts, i as int, base, before, bytes_mut_contents(*buf));
        }
        if r.is_err() {
            return r;
        }
        i = i + 1;
    }
    proof {
        lemma_join_all_full(parts);
        assert(bytes_mut_contents(*buf) =~= b0 + unsubscribe_out(unsubscribe@).0);
    }
    Ok(())
}

/// Reads an UNSUBSCRIBE payload, reporting a payload that ends where a
/// fixed-size field is due as `Truncated` instead of failing on it.
pub fn take_unsubscribe(buf: &mut BytesMut) -> (r: std::result::Result<UnsubscribePacket, DecodeFault>)
    ensures
        outcome(unsubscribe_dec(bytes_mut_contents(*old(buf))), r, |p: UnsubscribePacket| p@, bytes_mut_contents(*final(buf))),
{
    let ghost s0 = bytes_mut_contents(*buf);
    let packet_id = match take_u16(buf) {
        Ok(v) => v,
        Err(e) => return Err(e),
    };
    let mut topic_filters: Vec<String> = Vec::new();
    proof {
        assert(strings_view(topic_filters@) =~= Seq::<Seq<char>>::empty());
    }
    while bm_len(buf) > 0
        invariant
            s0 == bytes_mut_contents(*old(buf)),
            s0.len() >= 2,
            packet_id == be16_value(s0[0], s0[1]),
            parse_topics(s0.skip(2), Seq::empty()) == parse_topics(
                bytes_mut_contents(*buf),
                strings_view(topic_filters@),
            ),
        decreases bytes_mut_contents(*buf).len(),
    {
        let topic = match take_string(buf) {
            Ok(s) => s,
            Err(e) => return Err(e),
        };
        let ghost acc = strings_view(topic_filters@);
        topic_filters.push(topic);
        proof {
            assert(strings_view(topic_filters@) =~= acc.push(topic@));
        }
    }
    Ok(UnsubscribePacket { packet_id, topic_filters, properties: None })
}

/// Decodes an UNSUBSCRIBE payload.
pub fn decode_unsubscribe(buf: &mut BytesMut, protocol_version: u8) -> (r: Result<PacketPayload>)
    ensures
        settled(
            match unsubscribe_dec(bytes_mut_contents(*old(buf))) {
                Decoded::Value(p, rest) => Decoded::Value(PayloadView::Unsubscribe(p), rest),
                Decoded::Invalid(rest) => Decoded::Invalid(rest),
                Decoded::Truncated => Decoded::Truncated,
            },
            r,
            |p: PacketPayload| p@,
            bytes_mut_contents(*final(buf)),
        ),
{
    match take_unsubscribe(buf) {
        Ok(p) => Ok(PacketPayload::Unsubscribe(p)),
        Err(e) => settle(Err(e)),
    }
}

// ---------------------------------------------------------------------------
// UNSUBACK
// ---------------------------------------------------------------------------

/// The encoded UNSUBACK payload: the packet ID, then under MQTT 5.0 one byte
/// per reason code.
pub open spec fn unsuback_out(p: UnsubAckPacketView, version: u8) -> Out {
    (be16(p.packet_id) + if version == 5 { p.reason_codes } else { Seq::empty() }, true)
}

/// On the wire an UNSUBACK is its packet ID as two bytes, high byte first,
/// followed under MQTT 5.0 by one byte per reason code; under MQTT 3.1 and
/// 3.1.1 it is the two ID bytes alone.
pub proof fn lemma_unsuback_bytes(p: UnsubAckPacketView, version: u8)
    ensures
        version == 5 ==> unsuback_out(p, version) == (seq![(p.packet_id / 256) as u8, (p.packet_id % 256) as u8]
            + p.reason_codes, true),
        version != 5 ==> unsuback_out(p, version) == (seq![(p.packet_id / 256) as u8, (p.packet_id % 256) as u8], true),
{
    assert(seq![(p.packet_id / 256) as u8, (p.packet_id % 256) as u8] + Seq::<u8>::empty() =~= seq![
        (p.packet_id / 256) as u8,
        (p.packet_id % 256) as u8,
    ]);
}

/// Reading an UNSUBACK payload: the packet ID, then under MQTT 5.0 reason
/// codes to the end.
pub open spec fn unsuback_dec(s: Seq<u8>, version: u8) -> Decoded<UnsubAckPacketView> {
    if s.len() < 2 {
        Decoded::Truncated
    } else if version == 5 {
        Decoded::Value(
            UnsubAckPacketView { packet_id: be16_value(s[0], s[1]), reason_codes: s.skip(2), has_properties: false },
            Seq::empty(),
        )
    } else {
        Decoded::Value(
            UnsubAckPacketView { packet_id: be16_value(s[0], s[1]), reason_codes: Seq::empty(), has_properties: false },
            s.skip(2),
        )
    }
}

/// Encodes an UNSUBACK payload.
pub fn encode_unsuback(unsuback: &UnsubAckPacket, buf: &mut BytesMut, protocol_version: u8) -> (r: Result<()>)
    requires
        bytes_mut_contents(*old(buf)).len() + unsuback_out(unsuback@, protocol_version).0.len() <= buffer_limit(),
    ensures
        bytes_mut_contents(*final(buf)) == bytes_mut_contents(*old(buf)) + unsuback_out(unsuback@, protocol_version).0,
        r is Ok,
{
    let ghost b0 = bytes_mut_contents(*buf);
    if protocol_version == 5 {
        put_id_and_codes(buf, unsuback.packet_id, &unsuback.reason_codes);
    } else {
        bm_put_u16(buf, unsuback.packet_id);
    }
    assert(bytes_mut_contents(*buf) =~= b0 + unsuback_out(unsuback@, protocol_version).0);
    Ok(())
}

/// Reads an UNSUBACK payload, reporting a payload that ends where a
/// fixed-size field is due as `Truncated` instead of failing on it.
pub fn take_unsuback(buf: &mut BytesMut, protocol_version: u8) -> (r: std::result::Result<UnsubAckPacket, DecodeFault>)
    ensures
        outcome(unsuback_dec(bytes_mut_contents(*old(buf)), protocol_version), r, |p: UnsubAckPacket| p@, bytes_mut_contents(*final(buf))),
{
    let packet_id = match take_u16(buf) {
        Ok(v) => v,
        Err(e) => return Err(e),
    };
    let reason_codes = if protocol_version == 5 {
        take_codes(buf)
    } else {
        Vec::new()
    };
    Ok(UnsubAckPacket { packet_id, reason_codes, properties: None })
}

/// Decodes an UNSUBACK payload; reason codes are read under MQTT 5.0 only.
pub fn decode_unsuback(buf: &mut BytesMut, protocol_version: u8) -> (r: Result<PacketPayload>)
    requires
        bytes_mut_contents(*old(buf)).len() >= 2,
    ensures
        match unsuback_dec(bytes_mut_contents(*old(buf)), protocol_version) {
            Decoded::Value(a, rest) => (r matches Ok(p) && p@ == PayloadView::UnsubAck(a))
                && bytes_mut_contents(*final(buf)) == rest,
            _ => false,
        },
{
    match take_unsuback(buf, protocol_version) {
        Ok(p) => Ok(PacketPayload::UnsubAck(p)),
        Err(e) => settle(Err(e)),
    }
}

} // verus!
