//! MQTT 5.0 property blocks of CONNECT, CONNACK and PUBLISH.
//!
//! A block is one length byte followed by the properties, each an
//! identifier byte and a value. Decoding reads properties until the block is
//! used up; an unknown identifier skips one byte.

use vstd::prelude::*;
use bytes::BytesMut;
use crate::buffer::{
    bytes_mut_contents, buffer_limit, bm_len, bm_put_u8, bm_get_u8, bm_set_byte, bm_split_to,
    bm_advance,
};
use crate::error::{Error, Result};
use crate::text::owned;
use super::spec::max_remaining_length;
use crate::string_map::insert_entry;
use crate::types::properties::{
    ConnectProperties, ConnectPropertiesView, ConnAckProperties, ConnAckPropertiesView,
    PublishProperties, PublishPropertiesView, opt_chars, opt_bytes, user_pairs,
    lemma_text_pairs_insert,
};
use super::spec::{
    Out, Decoded, DecodeFault, map_dec, read_u8, read_u16, read_u32, read_string, read_bytes,
    block_dec, outcome, settled,
};
use super::fields::{
    u32_prop, u16_prop, u8_prop, bool_prop, string_prop, bytes_prop, user_props_out, props_block,
    join_all, lemma_join_all_step, lemma_join_all_extend, lemma_join_all_none, lemma_join_all_full, put_u32_prop,
    put_u16_prop, put_u8_prop, put_bool_prop, put_string_prop, put_bytes_prop, put_user_props,
};
use super::utils::{take_u8, take_u16, take_u32, take_string, take_bytes, settle};

verus! {

// ---------------------------------------------------------------------------
// Reading single properties
// ---------------------------------------------------------------------------

/// What an unknown property leaves: one byte is skipped when there is one.
pub open spec fn skip_unknown(t: Seq<u8>) -> Seq<u8> {
    if t.len() > 0 {
        t.skip(1)
    } else {
        t
    }
}

/// A user property: key, then value.
pub open spec fn read_user_prop(t: Seq<u8>) -> Decoded<(Seq<char>, Seq<char>)> {
    match read_string(t) {
        Decoded::Value(k, r) => map_dec(read_string(r), |v: Seq<char>| (k, v)),
        Decoded::Invalid(r) => Decoded::Invalid(r),
        Decoded::Truncated => Decoded::Truncated,
    }
}

/// A flag property: any non-zero byte is true.
pub open spec fn read_flag(t: Seq<u8>) -> Decoded<bool> {
    map_dec(read_u8(t), |b: u8| b != 0)
}

// ---------------------------------------------------------------------------
// CONNECT properties
// ---------------------------------------------------------------------------

/// The fields of a CONNECT property block, in the order they are written.
#[verifier::opaque]
pub open spec fn connect_props_parts(p: ConnectPropertiesView) -> Seq<Out> {
    seq![
        u32_prop(0x11, p.session_expiry_interval),
        u16_prop(0x21, p.receive_maximum),
        u32_prop(0x27, p.max_packet_size),
        u16_prop(0x22, p.topic_alias_maximum),
        bool_prop(0x19, p.request_response_information),
        bool_prop(0x17, p.request_problem_information),
        user_props_out(p.user_properties),
        string_prop(0x15, p.authentication_method),
        bytes_prop(0x16, p.authentication_data),
    ]
}

/// The fields of the block, one by one.
pub proof fn lemma_connect_props_parts(p: ConnectPropertiesView)
    ensures
        ({
            let parts = connect_props_parts(p);
            &&& parts.len() == 9
            &&& parts[0] == u32_prop(0x11, p.session_expiry_interval)
            &&& parts[1] == u16_prop(0x21, p.receive_maximum)
            &&& parts[2] == u32_prop(0x27, p.max_packet_size)
            &&& parts[3] == u16_prop(0x22, p.topic_alias_maximum)
            &&& parts[4] == bool_prop(0x19, p.request_response_information)
            &&& parts[5] == bool_prop(0x17, p.request_problem_information)
            &&& parts[6] == user_props_out(p.user_properties)
            &&& parts[7] == string_prop(0x15, p.authentication_method)
            &&& parts[8] == bytes_prop(0x16, p.authentication_data)
        }),
{
    reveal(connect_props_parts);
}


/// The encoded CONNECT property block.
pub open spec fn connect_props_out(p: ConnectPropertiesView) -> Out {
    props_block(join_all(connect_props_parts(p)))
}

/// Reading one CONNECT property with identifier `id` from `t` into `p`.
pub open spec fn connect_prop_step(id: u8, t: Seq<u8>, p: ConnectPropertiesView) -> Decoded<ConnectPropertiesView> {
    if id == 0x11 {
        map_dec(read_u32(t), |v: u32| ConnectPropertiesView { session_expiry_interval: Some(v), ..p })
    } else if id == 0x21 {
        map_dec(read_u16(t), |v: u16| ConnectPropertiesView { receive_maximum: Some(v), ..p })
    } else if id == 0x27 {
        map_dec(read_u32(t), |v: u32| ConnectPropertiesView { max_packet_size: Some(v), ..p })
    } else if id == 0x22 {
        map_dec(read_u16(t), |v: u16| ConnectPropertiesView { topic_alias_maximum: Some(v), ..p })
    } else if id == 0x19 {
        map_dec(read_flag(t), |v: bool| ConnectPropertiesView { request_response_information: Some(v), ..p })
    } else if id == 0x17 {
        map_dec(read_flag(t), |v: bool| ConnectPropertiesView { request_problem_information: Some(v), ..p })
    } else if id == 0x26 {
        map_dec(
            read_user_prop(t),
            |kv: (Seq<char>, Seq<char>)|
                ConnectPropertiesView {
                    user_properties: insert_entry(p.user_properties, kv.0, kv.1),
                    ..p
                },
        )
    } else if id == 0x15 {
        map_dec(read_string(t), |v: Seq<char>| ConnectPropertiesView { authentication_method: Some(v), ..p })
    } else if id == 0x16 {
        map_dec(read_bytes(t), |v: Seq<u8>| ConnectPropertiesView { authentication_data: Some(v), ..p })
    } else {
        Decoded::Value(p, skip_unknown(t))
    }
}

/// Reading CONNECT properties until `s` is used up, starting from `p`.
pub open spec fn parse_connect_props(s: Seq<u8>, p: ConnectPropertiesView) -> Decoded<ConnectPropertiesView>
    decreases s.len(),
{
    if s.len() == 0 {
        Decoded::Value(p, s)
    } else {
        match connect_prop_step(s[0], s.skip(1), p) {
            Decoded::Value(q, rest) => if rest.len() < s.len() {
                parse_connect_props(rest, q)
            } else {
                Decoded::Invalid(rest)
            },
            Decoded::Invalid(rest) => Decoded::Invalid(rest),
            Decoded::Truncated => Decoded::Truncated,
        }
    }
}

/// Reading a CONNECT property block.
pub open spec fn connect_props_dec(s: Seq<u8>) -> Decoded<ConnectPropertiesView> {
    block_dec(
        s,
        |b: Seq<u8>| parse_connect_props(b, ConnectPropertiesView::empty()),
        ConnectPropertiesView::empty(),
    )
}

/// Encodes the CONNECT properties as a block: a length byte, then every
/// property that is set. Fails, leaving the length byte 0, when a string or
/// binary value is too long or the properties take more than 255 bytes.
#[verifier::rlimit(25)]
pub fn encode_connect_properties(properties: &ConnectProperties, buf: &mut BytesMut) -> (r: Result<()>)
    requires
        bytes_mut_contents(*old(buf)).len() + connect_props_out(properties@).0.len() <= buffer_limit(),
    ensures
        bytes_mut_contents(*final(buf)) == bytes_mut_contents(*old(buf)) + connect_props_out(
            properties@,
        ).0,
        r is Ok <==> connect_props_out(properties@).1,
        r is Err ==> r matches Err(Error::InvalidPacket(_)),
        (join_all(connect_props_parts(properties@)).1 && join_all(connect_props_parts(properties@)).0.len() > 255)
            ==> (r matches Err(Error::InvalidPacket(m)) && m@ == "Property block too long"@),
{
    let ghost parts = connect_props_parts(properties@);
    let ghost b0 = bytes_mut_contents(*buf);
    let start = bm_len(buf);
    proof {
        lemma_connect_props_parts(properties@);
        lemma_join_all_none(parts);
        lemma_join_all_step(parts, 0);
    }
    bm_put_u8(buf, 0);
    let ghost base = bytes_mut_contents(*buf);
    proof {
        assert(base =~= b0 + seq![0u8]);
        assert(base =~= base + join_all(parts.take(0)).0);
    }
    let ghost before = bytes_mut_contents(*buf);
    put_u32_prop(buf, 0x11, properties.session_expiry_interval);
    proof {
        lemma_join_all_extend(parts, 0, base, before, bytes_mut_contents(*buf));
        lemma_join_all_step(parts, 1);
    }
    let ghost before = bytes_mut_contents(*buf);
    put_u16_prop(buf, 0x21, properties.receive_maximum);
    proof {
        lemma_join_all_extend(parts, 1, base, before, bytes_mut_contents(*buf));
        lemma_join_all_step(parts, 2);
    }
    let ghost before = bytes_mut_contents(*buf);
    put_u32_prop(buf, 0x27, properties.max_packet_size);
    proof {
        lemma_join_all_extend(parts, 2, base, before, bytes_mut_contents(*buf));
        lemma_join_all_step(parts, 3);
    }
    let ghost before = bytes_mut_contents(*buf);
    put_u16_prop(buf, 0x22, properties.topic_alias_maximum);
    proof {
        lemma_join_all_extend(parts, 3, base, before, bytes_mut_contents(*buf));
        lemma_join_all_step(parts, 4);
    }
    let ghost before = bytes_mut_contents(*buf);
    put_bool_prop(buf, 0x19, properties.request_response_information);
    proof {
        lemma_join_all_extend(parts, 4, base, before, bytes_mut_contents(*buf));
        lemma_join_all_step(parts, 5);
    }
    let ghost before = bytes_mut_contents(*buf);
    put_bool_prop(buf, 0x17, properties.request_problem_information);
    proof {
        lemma_join_all_extend(parts, 5, base, before, bytes_mut_contents(*buf));
        lemma_join_all_step(parts, 6);
    }
    let ghost before = bytes_mut_contents(*buf);
    let r = put_user_props(buf, &properties.user_properties);
    proof {
        lemma_join_all_extend(parts, 6, base, before, bytes_mut_contents(*buf));
    }
    if r.is_err() {
        return r;
    }
    proof {
        lemma_join_all_step(parts, 7);
    }
    let ghost before = bytes_mut_contents(*buf);
    let r = put_string_prop(buf, 0x15, &properties.authentication_method);
    proof {
        lemma_join_all_extend(parts, 7, base, before, bytes_mut_contents(*buf));
    }
    if r.is_err() {
        return r;
    }
    proof {
        lemma_join_all_step(parts, 8);
    }
    let ghost before = bytes_mut_contents(*buf);
    let r = put_bytes_prop(buf, 0x16, &properties.authentication_data);
    proof {
        lemma_join_all_extend(parts, 8, base, before, bytes_mut_contents(*buf));
        lemma_join_all_full(parts);
    }
    if r.is_err() {
        return r;
    }
    let len = bm_len(buf) - start - 1;
    if len > 255 {
        return Err(Error::InvalidPacket(owned("Property block too long")));
    }
    if len > 0 {
        bm_set_byte(buf, start, len as u8);
    }
    proof {
        assert(bytes_mut_contents(*buf) =~= b0 + connect_props_out(properties@).0);
    }
    Ok(())
}

/// Reads a CONNECT property block, reporting a payload that ends where a
/// fixed-size field is due as `Truncated` instead of failing on it.
pub fn take_connect_properties(buf: &mut BytesMut) -> (r: std::result::Result<ConnectProperties, DecodeFault>)
    ensures
        outcome(connect_props_dec(bytes_mut_contents(*old(buf))), r, |p: ConnectProperties| p@, bytes_mut_contents(*final(buf))),
{
    let ghost s0 = bytes_mut_contents(*buf);
    let mut properties = ConnectProperties::new();
    let n = match take_u8(buf) {
        Ok(n) => n,
        Err(e) => return Err(e),
    };
    if n == 0 {
        return Ok(properties);
    }
    if bm_len(buf) < n as usize {
        return Err(DecodeFault::Truncated);
    }
    let mut pb = bm_split_to(buf, n as usize);
    let ghost block = bytes_mut_contents(pb);
    let ghost empty = ConnectPropertiesView::empty();
    while bm_len(&pb) > 0
        invariant
            bytes_mut_contents(*buf) == s0.skip(1).skip(n as int),
            s0.len() >= 1 && n == s0[0] && n > 0 && s0.len() - 1 >= n,
            block == s0.skip(1).take(n as int),
            parse_connect_props(block, empty) == parse_connect_props(bytes_mut_contents(pb), properties@),
            s0 == bytes_mut_contents(*old(buf)),
            empty == ConnectPropertiesView::empty(),
        decreases bytes_mut_contents(pb).len(),
    {
        let ghost cur = bytes_mut_contents(pb);
        let ghost before = properties@;
        properties.user_properties.check_unique();
        let id = bm_get_u8(&mut pb);
        if id == 0x11 {
            match take_u32(&mut pb) {
                Ok(v) => properties.session_expiry_interval = Some(v),
                Err(e) => return Err(e),
            }
        } else if id == 0x21 {
            match take_u16(&mut pb) {
                Ok(v) => properties.receive_maximum = Some(v),
                Err(e) => return Err(e),
            }
        } else if id == 0x27 {
            match take_u32(&mut pb) {
                Ok(v) => properties.max_packet_size = Some(v),
                Err(e) => return Err(e),
            }
        } else if id == 0x22 {
            match take_u16(&mut pb) {
                Ok(v) => properties.topic_alias_maximum = Some(v),
                Err(e) => return Err(e),
            }
        } else if id == 0x19 {
            match take_u8(&mut pb) {
                Ok(v) => properties.request_response_information = Some(v != 0),
                Err(e) => return Err(e),
            }
        } else if id == 0x17 {
            match take_u8(&mut pb) {
                Ok(v) => properties.request_problem_information = Some(v != 0),
                Err(e) => return Err(e),
            }
        } else if id == 0x26 {
            let key = match take_string(&mut pb) {
                Ok(k) => k,
                Err(e) => return Err(e),
            };
            let value = match take_string(&mut pb) {
                Ok(v) => v,
                Err(e) => return Err(e),
            };
            proof {
                lemma_text_pairs_insert(properties.user_properties.view(), key@, value);
            }
            properties.user_properties.insert(key, value);
        } else if id == 0x15 {
            match take_string(&mut pb) {
                Ok(v) => properties.authentication_method = Some(v),
                Err(e) => return Err(e),
            }
        } else if id == 0x16 {
            match take_bytes(&mut pb) {
                Ok(v) => properties.authentication_data = Some(v),
                Err(e) => return Err(e),
            }
        } else {
            if bm_len(&pb) > 0 {
                bm_advance(&mut pb, 1);
            }
        }
        proof {
            assert(connect_prop_step(id, cur.skip(1), before) == Decoded::Value(
                properties@,
                bytes_mut_contents(pb),
            ));
        }
    }
    Ok(properties)
}

/// Decodes a CONNECT property block: a zero length gives no properties;
/// otherwise the properties are read from exactly that many bytes.
pub fn decode_connect_properties(buf: &mut BytesMut) -> (r: Result<ConnectProperties>)
    ensures
        settled(connect_props_dec(bytes_mut_contents(*old(buf))), r, |p: ConnectProperties| p@, bytes_mut_contents(*final(buf))),
{
    settle(take_connect_properties(buf))
}


// ---------------------------------------------------------------------------
// CONNACK properties
// ---------------------------------------------------------------------------

/// The fields of a CONNACK property block, in the order they are written.
#[verifier::opaque]
pub open spec fn connack_props_parts(p: ConnAckPropertiesView) -> Seq<Out> {
    seq![
        u32_prop(0x11, p.session_expiry_interval),
        u16_prop(0x21, p.receive_maximum),
        u8_prop(0x24, p.max_qos),
        bool_prop(0x25, p.retain_available),
        u32_prop(0x27, p.max_packet_size),
        string_prop(0x12, p.assigned_client_identifier),
        u16_prop(0x22, p.topic_alias_maximum),
        string_prop(0x1F, p.reason_string),
        user_props_out(p.user_properties),
        bool_prop(0x28, p.wildcard_subscription_available),
        bool_prop(0x29, p.subscription_identifiers_available),
        bool_prop(0x2A, p.shared_subscription_available),
        u16_prop(0x13, p.server_keep_alive),
        string_prop(0x1A, p.response_information),
        string_prop(0x1C, p.server_reference),
        string_prop(0x15, p.authentication_method),
        bytes_prop(0x16, p.authentication_data),
    ]
}

/// The fields of the block, one by one.
pub proof fn lemma_connack_props_parts(p: ConnAckPropertiesView)
    ensures
        ({
            let parts = connack_props_parts(p);
            &&& parts.len() == 17
            &&& parts[0] == u32_prop(0x11, p.session_expiry_interval)
            &&& parts[1] == u16_prop(0x21, p.receive_maximum)
            &&& parts[2] == u8_prop(0x24, p.max_qos)
            &&& parts[3] == bool_prop(0x25, p.retain_available)
            &&& parts[4] == u32_prop(0x27, p.max_packet_size)
            &&& parts[5] == string_prop(0x12, p.assigned_client_identifier)
            &&& parts[6] == u16_prop(0x22, p.topic_alias_maximum)
            &&& parts[7] == string_prop(0x1F, p.reason_string)
            &&& parts[8] == user_props_out(p.user_properties)
            &&& parts[9] == bool_prop(0x28, p.wildcard_subscription_available)
            &&& parts[10] == bool_prop(0x29, p.subscription_identifiers_available)
            &&& parts[11] == bool_prop(0x2A, p.shared_subscription_available)
            &&& parts[12] == u16_prop(0x13, p.server_keep_alive)
            &&& parts[13] == string_prop(0x1A, p.response_information)
            &&& parts[14] == string_prop(0x1C, p.server_reference)
            &&& parts[15] == string_prop(0x15, p.authentication_method)
            &&& parts[16] == bytes_prop(0x16, p.authentication_data)
        }),
{
    reveal(connack_props_parts);
}


/// The encoded CONNACK property block.
pub open spec fn connack_props_block(p: ConnAckPropertiesView) -> Out {
    props_block(join_all(connack_props_parts(p)))
}

/// Whether the CONNACK properties hold values the protocol allows: a
/// maximum QoS of at most 2 and a maximum packet size within the largest
/// remaining length.
pub open spec fn connack_props_valid(p: ConnAckPropertiesView) -> bool {
    &&& (p.max_qos matches Some(q) ==> q <= 2)
    &&& (p.max_packet_size matches Some(m) ==> m <= max_remaining_length())
}

/// The encoded CONNACK property block: nothing, and a failure, when a
/// value is out of range; otherwise the block.
pub open spec fn connack_props_out(p: ConnAckPropertiesView) -> Out {
    if connack_props_valid(p) {
        connack_props_block(p)
    } else {
        (Seq::empty(), false)
    }
}

/// Reading one CONNACK property with identifier `id` from `t` into `p`.
pub open spec fn connack_prop_step(id: u8, t: Seq<u8>, p: ConnAckPropertiesView) -> Decoded<ConnAckPropertiesView> {
    if id == 0x11 {
        map_dec(read_u32(t), |v: u32| ConnAckPropertiesView { session_expiry_interval: Some(v), ..p })
    } else if id == 0x21 {
        map_dec(read_u16(t), |v: u16| ConnAckPropertiesView { receive_maximum: Some(v), ..p })
    } else if id == 0x24 {
        map_dec(read_u8(t), |v: u8| ConnAckPropertiesView { max_qos: Some(v), ..p })
    } else if id == 0x25 {
        map_dec(read_flag(t), |v: bool| ConnAckPropertiesView { retain_available: Some(v), ..p })
    } else if id == 0x27 {
        map_dec(read_u32(t), |v: u32| ConnAckPropertiesView { max_packet_size: Some(v), ..p })
    } else if id == 0x12 {
        map_dec(read_string(t), |v: Seq<char>| ConnAckPropertiesView { assigned_client_identifier: Some(v), ..p })
    } else if id == 0x22 {
        map_dec(read_u16(t), |v: u16| ConnAckPropertiesView { topic_alias_maximum: Some(v), ..p })
    } else if id == 0x1F {
        map_dec(read_string(t), |v: Seq<char>| ConnAckPropertiesView { reason_string: Some(v), ..p })
    } else if id == 0x26 {
        map_dec(
            read_user_prop(t),
            |kv: (Seq<char>, Seq<char>)|
                ConnAckPropertiesView { user_properties: insert_entry(p.user_properties, kv.0, kv.1), ..p },
        )
    } else if id == 0x28 {
        map_dec(read_flag(t), |v: bool| ConnAckPropertiesView { wildcard_subscription_available: Some(v), ..p })
    } else if id == 0x29 {
        map_dec(read_flag(t), |v: bool| ConnAckPropertiesView { subscription_identifiers_available: Some(v), ..p })
    } else if id == 0x2A {
        map_dec(read_flag(t), |v: bool| ConnAckPropertiesView { shared_subscription_available: Some(v), ..p })
    } else if id == 0x13 {
        map_dec(read_u16(t), |v: u16| ConnAckPropertiesView { server_keep_alive: Some(v), ..p })
    } else if id == 0x1A {
        map_dec(read_string(t), |v: Seq<char>| ConnAckPropertiesView { response_information: Some(v), ..p })
    } else if id == 0x1C {
        map_dec(read_string(t), |v: Seq<char>| ConnAckPropertiesView { server_reference: Some(v), ..p })
    } else if id == 0x15 {
        map_dec(read_string(t), |v: Seq<char>| ConnAckPropertiesView { authentication_method: Some(v), ..p })
    } else if id == 0x16 {
        map_dec(read_bytes(t), |v: Seq<u8>| ConnAckPropertiesView { authentication_data: Some(v), ..p })
    } else {
        Decoded::Value(p, skip_unknown(t))
    }
}


/// Reading CONNACK properties until `s` is used up, starting from `p`.
pub open spec fn parse_connack_props(s: Seq<u8>, p: ConnAckPropertiesView) -> Decoded<ConnAckPropertiesView>
    decreases s.len(),
{
    if s.len() == 0 {
        Decoded::Value(p, s)
    } else {
        match connack_prop_step(s[0], s.skip(1), p) {
            Decoded::Value(q, rest) => if rest.len() < s.len() {
                parse_connack_props(rest, q)
            } else {
                Decoded::Invalid(rest)
            },
            Decoded::Invalid(rest) => Decoded::Invalid(rest),
            Decoded::Truncated => Decoded::Truncated,
        }
    }
}

/// Reading the properties of a CONNACK property block, whatever their values.
pub open spec fn connack_props_raw_dec(s: Seq<u8>) -> Decoded<ConnAckPropertiesView> {
    block_dec(
        s,
        |b: Seq<u8>| parse_connack_props(b, ConnAckPropertiesView::empty()),
        ConnAckPropertiesView::empty(),
    )
}


/// Encodes the CONNACK properties: fails, writing nothing, when the
/// maximum QoS is above 2 or the maximum packet size above 268,435,455;
/// otherwise writes the block (a length byte, then every property that is
/// set), failing when a string or binary value is too long or the
/// properties take more than 255 bytes.
pub fn encode_connack_properties(properties: &ConnAckProperties, buf: &mut BytesMut) -> (r: Result<()>)
    requires
        bytes_mut_contents(*old(buf)).len() + connack_props_out(properties@).0.len() <= buffer_limit(),
    ensures
        bytes_mut_contents(*final(buf)) == bytes_mut_contents(*old(buf)) + connack_props_out(
            properties@,
        ).0,
        r is Ok <==> connack_props_out(properties@).1,
        r is Err ==> r matches Err(Error::InvalidPacket(_)),
        (properties.max_qos matches Some(q) && q > 2) ==> (r matches Err(Error::InvalidPacket(m)) && m@
            == "Maximum QoS above 2"@),
        (!(properties.max_qos matches Some(q) && q > 2) && (properties.max_packet_size matches Some(n) && n
            > max_remaining_length())) ==> (r matches Err(Error::InvalidPacket(m)) && m@
            == "Maximum packet size above the protocol limit"@),
        (connack_props_valid(properties@) && join_all(connack_props_parts(properties@)).1 && join_all(
            connack_props_parts(properties@),
        ).0.len() > 255) ==> (r matches Err(Error::InvalidPacket(m)) && m@ == "Property block too long"@),
{
    if let Some(q) = properties.max_qos {
        if q > 2 {
            assert(bytes_mut_contents(*buf) =~= bytes_mut_contents(*buf) + Seq::<u8>::empty());
            return Err(Error::InvalidPacket(owned("Maximum QoS above 2")));
        }
    }
    if let Some(n) = properties.max_packet_size {
        if n > 268_435_455 {
            assert(bytes_mut_contents(*buf) =~= bytes_mut_contents(*buf) + Seq::<u8>::empty());
            return Err(Error::InvalidPacket(owned("Maximum packet size above the protocol limit")));
        }
    }
    write_connack_properties(properties, buf)
}

/// Writes the CONNACK property block: a length byte, then every property
/// that is set. Fails, leaving the length byte 0, when a string or binary
/// value is too long or the properties take more than 255 bytes.
#[verifier::rlimit(50)]
fn write_connack_properties(properties: &ConnAckProperties, buf: &mut BytesMut) -> (r: Result<()>)
    requires
        bytes_mut_contents(*old(buf)).len() + connack_props_block(properties@).0.len() <= buffer_limit(),
    ensures
        bytes_mut_contents(*final(buf)) == bytes_mut_contents(*old(buf)) + connack_props_block(
            properties@,
        ).0,
        r is Ok <==> connack_props_block(properties@).1,
        (join_all(connack_props_parts(properties@)).1 && join_all(connack_props_parts(properties@)).0.len() > 255)
            ==> (r matches Err(Error::InvalidPacket(m)) && m@ == "Property block too long"@),
        r is Err ==> r matches Err(Error::InvalidPacket(_)),
{
    let ghost parts = connack_props_parts(properties@);
    let ghost b0 = bytes_mut_contents(*buf);
    let start = bm_len(buf);
    proof {
        lemma_connack_props_parts(properties@);
        lemma_join_all_none(parts);
        lemma_join_all_step(parts, 0);
    }
    bm_put_u8(buf, 0);
    let ghost base = bytes_mut_contents(*buf);
    proof {
        assert(base =~= b0 + seq![0u8]);
        assert(base =~= base + join_all(parts.take(0)).0);
    }
    let ghost before = bytes_mut_contents(*buf);
    put_u32_prop(buf, 0x11, properties.session_expiry_interval);
    proof {
        lemma_join_all_extend(parts, 0, base, before, bytes_mut_contents(*buf));
    }
    proof {
        lemma_join_all_step(parts, 1);
    }
    let ghost before = bytes_mut_contents(*buf);
    put_u16_prop(buf, 0x21, properties.receive_maximum);
    proof {
        lemma_join_all_extend(parts, 1, base, before, bytes_mut_contents(*buf));
    }
    proof {
        lemma_join_all_step(parts, 2);
    }
    let ghost before = bytes_mut_contents(*buf);
    put_u8_prop(buf, 0x24, properties.max_qos);
    proof {
        lemma_join_all_extend(parts, 2, base, before, bytes_mut_contents(*buf));
    }
    proof {
        lemma_join_all_step(parts, 3);
    }
    let ghost before = bytes_mut_contents(*buf);
    put_bool_prop(buf, 0x25, properties.retain_available);
    proof {
        lemma_join_all_extend(parts, 3, base, before, bytes_mut_contents(*buf));
    }
    proof {
        lemma_join_all_step(parts, 4);
    }
    let ghost before = bytes_mut_contents(*buf);
    put_u32_prop(buf, 0x27, properties.max_packet_size);
    proof {
        lemma_join_all_extend(parts, 4, base, before, bytes_mut_contents(*buf));
    }
    proof {
        lemma_join_all_step(parts, 5);
    }
    let ghost before = bytes_mut_contents(*buf);
    let r = put_string_prop(buf, 0x12, &properties.assigned_client_identifier);
    proof {
        lemma_join_all_extend(parts, 5, base, before, bytes_mut_contents(*buf));
    }
    if r.is_err() {
        return r;
    }
    proof {
        lemma_join_all_step(parts, 6);
    }
    let ghost before = bytes_mut_contents(*buf);
    put_u16_prop(buf, 0x22, properties.topic_alias_maximum);
    proof {
        lemma_join_all_extend(parts, 6, base, before, bytes_mut_contents(*buf));
    }
    proof {
        lemma_join_all_step(parts, 7);
    }
    let ghost before = bytes_mut_contents(*buf);
    let r = put_string_prop(buf, 0x1F, &properties.reason_string);
    proof {
        lemma_join_all_extend(parts, 7, base, before, bytes_mut_contents(*buf));
    }
    if r.is_err() {
        return r;
    }
    proof {
        lemma_join_all_step(parts, 8);
    }
    let ghost before = bytes_mut_contents(*buf);
    let r = put_user_props(buf, &properties.user_properties);
    proof {
        lemma_join_all_extend(parts, 8, base, before, bytes_mut_contents(*buf));
    }
    if r.is_err() {
        return r;
    }
    proof {
        lemma_join_all_step(parts, 9);
    }
    let ghost before = bytes_mut_contents(*buf);
    put_bool_prop(buf, 0x28, properties.wildcard_subscription_available);
    proof {
        lemma_join_all_extend(parts, 9, base, before, bytes_mut_contents(*buf));
    }
    proof {
        lemma_join_all_step(parts, 10);
    }
    let ghost before = bytes_mut_contents(*buf);
    put_bool_prop(buf, 0x29, properties.subscription_identifiers_available);
    proof {
        lemma_join_all_extend(parts, 10, base, before, bytes_mut_contents(*buf));
    }
    proof {
        lemma_join_all_step(parts, 11);
    }
    let ghost before = bytes_mut_contents(*buf);
    put_bool_prop(buf, 0x2A, properties.shared_subscription_available);
    proof {
        lemma_join_all_extend(parts, 11, base, before, bytes_mut_contents(*buf));
    }
    proof {
        lemma_join_all_step(parts, 12);
    }
    let ghost before = bytes_mut_contents(*buf);
    put_u16_prop(buf, 0x13, properties.server_keep_alive);
    proof {
        lemma_join_all_extend(parts, 12, base, before, bytes_mut_contents(*buf));
    }
    proof {
        lemma_join_all_step(parts, 13);
    }
    let ghost before = bytes_mut_contents(*buf);
    let r = put_string_prop(buf, 0x1A, &properties.response_information);
    proof {
        lemma_join_all_extend(parts, 13, base, before, bytes_mut_contents(*buf));
    }
    if r.is_err() {
        return r;
    }
    proof {
        lemma_join_all_step(parts, 14);
    }
    let ghost before = bytes_mut_contents(*buf);
    let r = put_string_prop(buf, 0x1C, &properties.server_reference);
    proof {
        lemma_join_all_extend(parts, 14, base, before, bytes_mut_contents(*buf));
    }
    if r.is_err() {
        return r;
    }
    proof {
        lemma_join_all_step(parts, 15);
    }
    let ghost before = bytes_mut_contents(*buf);
    let r = put_string_prop(buf, 0x15, &properties.authentication_method);
    proof {
        lemma_join_all_extend(parts, 15, base, before, bytes_mut_contents(*buf));
    }
    if r.is_err() {
        return r;
    }
    proof {
        lemma_join_all_step(parts, 16);
    }
    let ghost before = bytes_mut_contents(*buf);
    let r = put_bytes_prop(buf, 0x16, &properties.authentication_data);
    proof {
        lemma_join_all_extend(parts, 16, base, before, bytes_mut_contents(*buf));
        lemma_join_all_full(parts);
    }
    if r.is_err() {
        return r;
    }
    let len = bm_len(buf) - start - 1;
    if len > 255 {
        return Err(Error::InvalidPacket(owned("Property block too long")));
    }
    if len > 0 {
        bm_set_byte(buf, start, len as u8);
    }
    proof {
        assert(bytes_mut_contents(*buf) =~= b0 + connack_props_block(properties@).0);
    }
    Ok(())
}


/// Reading a CONNACK property block: the properties read, refused as
/// malformed when a value is out of range (a maximum QoS above 2 or a
/// maximum packet size above 268,435,455).
pub open spec fn connack_props_dec(s: Seq<u8>) -> Decoded<ConnAckPropertiesView> {
    match connack_props_raw_dec(s) {
        Decoded::Value(p, rest) => if connack_props_valid(p) {
            Decoded::Value(p, rest)
        } else {
            Decoded::Invalid(rest)
        },
        other => other,
    }
}

/// Reads a CONNACK property block, reporting a payload that ends where a
/// fixed-size field is due as `Truncated` instead of failing on it. A
/// value out of range is malformed.
pub fn take_connack_properties(buf: &mut BytesMut) -> (r: std::result::Result<ConnAckProperties, DecodeFault>)
    ensures
        outcome(connack_props_dec(bytes_mut_contents(*old(buf))), r, |p: ConnAckProperties| p@, bytes_mut_contents(*final(buf))),
{
    match read_connack_properties(buf) {
        Ok(p) => {
            let bad_qos = match p.max_qos {
                Some(q) => q > 2,
                None => false,
            };
            let bad_size = match p.max_packet_size {
                Some(n) => n > 268_435_455,
                None => false,
            };
            if bad_qos || bad_size {
                Err(DecodeFault::Malformed(Error::InvalidPacket(owned("Property value out of range"))))
            } else {
                Ok(p)
            }
        },
        Err(e) => Err(e),
    }
}

/// Reads the properties of a CONNACK property block, whatever their values.
#[verifier::rlimit(50)]
fn read_connack_properties(buf: &mut BytesMut) -> (r: std::result::Result<ConnAckProperties, DecodeFault>)
    ensures
        outcome(connack_props_raw_dec(bytes_mut_contents(*old(buf))), r, |p: ConnAckProperties| p@, bytes_mut_contents(*final(buf))),
{
    let ghost s0 = bytes_mut_contents(*buf);
    let mut properties = ConnAckProperties::new();
    let n = match take_u8(buf) {
        Ok(n) => n,
        Err(e) => return Err(e),
    };
    if n == 0 {
        return Ok(properties);
    }
    if bm_len(buf) < n as usize {
        return Err(DecodeFault::Truncated);
    }
    let mut pb = bm_split_to(buf, n as usize);
    let ghost block = bytes_mut_contents(pb);
    let ghost empty = ConnAckPropertiesView::empty();
    while bm_len(&pb) > 0
        invariant
            bytes_mut_contents(*buf) == s0.skip(1).skip(n as int),
            s0.len() >= 1 && n == s0[0] && n > 0 && s0.len() - 1 >= n,
            block == s0.skip(1).take(n as int),
            parse_connack_props(block, empty) == parse_connack_props(bytes_mut_contents(pb), properties@),
            s0 == bytes_mut_contents(*old(buf)),
            empty == ConnAckPropertiesView::empty(),
        decreases bytes_mut_contents(pb).len(),
    {
        let ghost cur = bytes_mut_contents(pb);
        let ghost before = properties@;
        properties.user_properties.check_unique();
        let id = bm_get_u8(&mut pb);
        if id == 0x11 {
            match take_u32(&mut pb) {
                Ok(v) => properties.session_expiry_interval = Some(v),
                Err(e) => return Err(e),
            }
        } else if id == 0x21 {
            match take_u16(&mut pb) {
                Ok(v) => properties.receive_maximum = Some(v),
                Err(e) => return Err(e),
            }
        } else if id == 0x24 {
            match take_u8(&mut pb) {
                Ok(v) => properties.max_qos = Some(v),
                Err(e) => return Err(e),
            }
        } else if id == 0x25 {
            match take_u8(&mut pb) {
                Ok(v) => properties.retain_available = Some(v != 0),
                Err(e) => return Err(e),
            }
        } else if id == 0x27 {
            match take_u32(&mut pb) {
                Ok(v) => properties.max_packet_size = Some(v),
                Err(e) => return Err(e),
            }
        } else if id == 0x12 {
            match take_string(&mut pb) {
                Ok(v) => properties.assigned_client_identifier = Some(v),
                Err(e) => return Err(e),
            }
        } else if id == 0x22 {
            match take_u16(&mut pb) {
                Ok(v) => properties.topic_alias_maximum = Some(v),
                Err(e) => return Err(e),
            }
        } else if id == 0x1F {
            match take_string(&mut pb) {
                Ok(v) => properties.reason_string = Some(v),
                Err(e) => return Err(e),
            }
        } else if id == 0x26 {
            let key = match take_string(&mut pb) {
                Ok(k) => k,
                Err(e) => return Err(e),
            };
            let value = match take_string(&mut pb) {
                Ok(v) => v,
                Err(e) => return Err(e),
            };
            proof {
                lemma_text_pairs_insert(properties.user_properties.view(), key@, value);
            }
            properties.user_properties.insert(key, value);
        } else if id == 0x28 {
            match take_u8(&mut pb) {
                Ok(v) => properties.wildcard_subscription_available = Some(v != 0),
                Err(e) => return Err(e),
            }
        } else if id == 0x29 {
            match take_u8(&mut pb) {
                Ok(v) => properties.subscription_identifiers_available = Some(v != 0),
                Err(e) => return Err(e),
            }
        } else if id == 0x2A {
            match take_u8(&mut pb) {
                Ok(v) => properties.shared_subscription_available = Some(v != 0),
                Err(e) => return Err(e),
            }
        } else if id == 0x13 {
            match take_u16(&mut pb) {
                Ok(v) => properties.server_keep_alive = Some(v),
                Err(e) => return Err(e),
            }
        } else if id == 0x1A {
            match take_string(&mut pb) {
                Ok(v) => properties.response_information = Some(v),
                Err(e) => return Err(e),
            }
        } else if id == 0x1C {
            match take_string(&mut pb) {
                Ok(v) => properties.server_reference = Some(v),
                Err(e) => return Err(e),
            }
        } else if id == 0x15 {
            match take_string(&mut pb) {
                Ok(v) => properties.authentication_method = Some(v),
                Err(e) => return Err(e),
            }
        } else if id == 0x16 {
            match take_bytes(&mut pb) {
                Ok(v) => properties.authentication_data = Some(v),
                Err(e) => return Err(e),
            }
        } else {
            if bm_len(&pb) > 0 {
                bm_advance(&mut pb, 1);
            }
        }
        proof {
            assert(connack_prop_step(id, cur.skip(1), before) == Decoded::Value(
                properties@,
                bytes_mut_contents(pb),
            ));
        }
    }
    Ok(properties)
}

/// Decodes a CONNACK property block: a zero length gives no properties;
/// otherwise the properties are read from exactly that many bytes.
pub fn decode_connack_properties(buf: &mut BytesMut) -> (r: Result<ConnAckProperties>)
    ensures
        settled(connack_props_dec(bytes_mut_contents(*old(buf))), r, |p: ConnAckProperties| p@, bytes_mut_contents(*final(buf))),
{
    settle(take_connack_properties(buf))
}

// ---------------------------------------------------------------------------
// PUBLISH properties
// ---------------------------------------------------------------------------

/// PUBLISH properties are not put on the wire: encoding writes nothing.
pub fn encode_publish_properties(properties: &PublishProperties, buf: &mut BytesMut) -> (r: Result<()>)
    ensures
        bytes_mut_contents(*final(buf)) == bytes_mut_contents(*old(buf)),
        r is Ok,
{
    Ok(())
}

/// PUBLISH properties are not read from the wire: decoding gives empty
/// properties and leaves the input as it is.
pub fn decode_publish_properties(buf: &mut BytesMut) -> (r: Result<PublishProperties>)
    ensures
        bytes_mut_contents(*final(buf)) == bytes_mut_contents(*old(buf)),
        r matches Ok(p) && p@ == PublishPropertiesView::empty(),
{
    Ok(PublishProperties::new())
}

} // verus!
