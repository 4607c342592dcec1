//! What is decoded from what was encoded.
//!
//! For every packet the codec can write and read back, reading the bytes it
//! wrote gives the same packet and leaves whatever followed.

use vstd::prelude::*;
use vstd::utf8::{encode_utf8, valid_utf8, decode_utf8, encode_utf8_valid_utf8, encode_utf8_decode_utf8};
use crate::buffer::{be16, be16_value, be32, be32_value, lemma_be16_roundtrip, lemma_be32_roundtrip};
use super::spec::{
    Out, Decoded, start, join, piece, string_field, bytes_field, read_u8, read_u16, read_u32,
    read_string, read_bytes,
};
use crate::types::packet::{PacketType, PacketHeader, PacketView, PayloadView, lemma_packet_type_roundtrip};
use crate::types::connect::DisconnectPacketView;
use super::utils::lemma_remaining_length_roundtrip;
use super::spec::{rl_encode, rl_decode, max_remaining_length};
use super::frame::{payload_out, payload_dec, header_byte, packet_out, frame_dec, frame_header, Frame};
use super::fields::{
    join_all, lemma_join_all_step, lemma_join_all_none, lemma_join_all_full, lemma_join_start,
    lemma_join_all_concat, concat_from,
    flag_byte, u32_prop, u16_prop, u8_prop, bool_prop, string_prop, bytes_prop, user_prop_out,
    user_props_out,
};
use super::properties::{
    parse_connect_props, parse_connack_props, connect_props_parts, connack_props_parts,
    connect_props_out, connack_props_out, connack_props_block, connack_props_valid, connect_props_dec, connack_props_dec,
    lemma_connect_props_parts, lemma_connack_props_parts,
};
use crate::string_map::{keys_unique, has_key};
use crate::types::properties::{ConnectPropertiesView, ConnAckPropertiesView, PublishPropertiesView};
use crate::types::connect::{ConnectPacketView, ConnAckPacketView, lemma_connect_return_code_roundtrip};
use crate::types::publish::{PublishPacketView, AckView};
use crate::types::subscribe::{TopicFilterView, SubscribePacketView, SubAckPacketView, UnsubscribePacketView, UnsubAckPacketView};
use super::connect::{
    connect_flags, connect_parts, connect_out, connect_dec, connect_tail_dec, connack_out,
    connack_dec, opt_string_out, opt_bytes_out, lemma_connect_parts,
};
use super::publish::{opt_id_bytes, publish_out, publish_dec, ack_out, ack_dec};
use super::subscribe::{
    filter_out, filters_parts, subscribe_out, subscribe_dec, wire_filter, parse_filters, suback_out,
    suback_dec, topics_parts, parse_topics, unsubscribe_out, unsubscribe_dec, unsuback_out,
    unsuback_dec,
};

verus! {

/// Reading back a length-prefixed string field gives the string.
pub proof fn lemma_string_field_roundtrip(s: Seq<char>, rest: Seq<u8>)
    requires
string_field(s) is Some,
    ensures
read_string(string_field(s).unwrap() + rest) == Decoded::Value(s, rest),
{
    let e = encode_utf8(s);
    let f = string_field(s).unwrap();
    let b = f + rest;
    lemma_be16_roundtrip(e.len() as u16);
    assert(b[0] == be16(e.len() as u16)[0]);
    assert(b[1] == be16(e.len() as u16)[1]);
    assert(b.subrange(2, (2 + e.len()) as int) =~= e);
    assert(b.skip((2 + e.len()) as int) =~= rest);
    encode_utf8_valid_utf8(s);
    encode_utf8_decode_utf8(s);
}

/// Reading back a length-prefixed binary field gives the data.
pub proof fn lemma_bytes_field_roundtrip(d: Seq<u8>, rest: Seq<u8>)
    requires
bytes_field(d) is Some,
    ensures
read_bytes(bytes_field(d).unwrap() + rest) == Decoded::Value(d, rest),
{
    let f = bytes_field(d).unwrap();
    let b = f + rest;
    lemma_be16_roundtrip(d.len() as u16);
    assert(b[0] == be16(d.len() as u16)[0]);
    assert(b[1] == be16(d.len() as u16)[1]);
    assert(b.subrange(2, (2 + d.len()) as int) =~= d);
    assert(b.skip((2 + d.len()) as int) =~= rest);
}

/// A string field read back as binary data gives the string's UTF-8 bytes,
/// which decode to the string.
pub proof fn lemma_string_field_as_bytes(s: Seq<char>, rest: Seq<u8>)
    requires
string_field(s) is Some,
    ensures
read_bytes(string_field(s).unwrap() + rest) == Decoded::Value(encode_utf8(s), rest),
valid_utf8(encode_utf8(s)),
decode_utf8(encode_utf8(s)) == s,
{
    lemma_bytes_field_roundtrip(encode_utf8(s), rest);
    encode_utf8_valid_utf8(s);
    encode_utf8_decode_utf8(s);
}

/// Reading back a big-endian 16-bit value.
pub proof fn lemma_u16_roundtrip(v: u16, rest: Seq<u8>)
    ensures
read_u16(be16(v) + rest) == Decoded::Value(v, rest),
{
    lemma_be16_roundtrip(v);
    let b = be16(v) + rest;
    assert(b[0] == be16(v)[0]);
    assert(b[1] == be16(v)[1]);
    assert(b.skip(2) =~= rest);
}

/// Reading back a big-endian 32-bit value.
pub proof fn lemma_u32_roundtrip(v: u32, rest: Seq<u8>)
    ensures
read_u32(be32(v) + rest) == Decoded::Value(v, rest),
{
    lemma_be32_roundtrip(v);
    let b = be32(v) + rest;
    assert(b[0] == be32(v)[0]);
    assert(b[1] == be32(v)[1]);
    assert(b[2] == be32(v)[2]);
    assert(b[3] == be32(v)[3]);
    assert(b.skip(4) =~= rest);
}

/// The fields of the fixed header's first byte read back.
pub proof fn lemma_header_bits(code: u8, dup: bool, qos: u8, retain: bool)
    requires
1 <= code <= 15,
qos <= 3,
    ensures
({
    let b = (code << 4u8) | (if dup { 0x08u8 } else { 0u8 }) | ((qos & 0x03u8) << 1u8) | (if retain {
0x01u8
    } else {
0u8
    });
    &&& b >> 4u8 == code
    &&& ((b & 0x08u8) != 0) == dup
    &&& (b & 0x06u8) >> 1u8 == qos
    &&& ((b & 0x01u8) != 0) == retain
}),
{
    assert({
let b = (code << 4u8) | (if dup { 0x08u8 } else { 0u8 }) | ((qos & 0x03u8) << 1u8) | (if retain {
    0x01u8
} else {
    0u8
});
&&& b >> 4u8 == code
&&& ((b & 0x08u8) != 0) == dup
&&& (b & 0x06u8) >> 1u8 == qos
&&& ((b & 0x01u8) != 0) == retain
    }) by (bit_vector)
requires
    1 <= code <= 15,
    qos <= 3,
    ;
}

/// The fields of the connect flags byte read back. Without the will flag
/// the will's QoS and retain read back as 0 and false.
pub proof fn lemma_connect_flag_bits(clean: bool, will: bool, qos: u8, retain: bool, password: bool, username: bool)
    requires
qos <= 3,
    ensures
({
    let f = (if clean { 0x02u8 } else { 0u8 }) | (if will {
0x04u8 | ((qos & 0x03u8) << 3u8) | (if retain { 0x20u8 } else { 0u8 })
    } else {
0u8
    }) | (if password { 0x40u8 } else { 0u8 }) | (if username { 0x80u8 } else { 0u8 });
    &&& ((f & 0x02u8) != 0) == clean
    &&& ((f & 0x04u8) != 0) == will
    &&& (f & 0x18u8) >> 3u8 == (if will { qos } else { 0u8 })
    &&& ((f & 0x20u8) != 0) == (will && retain)
    &&& ((f & 0x40u8) != 0) == password
    &&& ((f & 0x80u8) != 0) == username
}),
{
    assert({
let f = (if clean { 0x02u8 } else { 0u8 }) | (if will {
    0x04u8 | ((qos & 0x03u8) << 3u8) | (if retain { 0x20u8 } else { 0u8 })
} else {
    0u8
}) | (if password { 0x40u8 } else { 0u8 }) | (if username { 0x80u8 } else { 0u8 });
&&& ((f & 0x02u8) != 0) == clean
&&& ((f & 0x04u8) != 0) == will
&&& (f & 0x18u8) >> 3u8 == (if will { qos } else { 0u8 })
&&& ((f & 0x20u8) != 0) == (will && retain)
&&& ((f & 0x40u8) != 0) == password
&&& ((f & 0x80u8) != 0) == username
    }) by (bit_vector)
requires
    qos <= 3,
    ;
}

/// When every part succeeds, the first `k` parts joined are their bytes one
/// after the other.
pub proof fn lemma_join_all_ok_prefix(s: Seq<Out>, k: int)
    requires
0 <= k <= s.len(),
        join_all(s).1,
    ensures
        join_all(s.take(k)).1,
forall|i: int| 0 <= i < k ==> (#[trigger] s[i]).1,
    decreases k,
{
    if k == 0 {
lemma_join_all_none(s);
    } else {
lemma_join_all_ok_prefix(s, k - 1);
lemma_join_all_step(s, k - 1);
    }
}


// ---------------------------------------------------------------------------
// CONNECT property blocks
// ---------------------------------------------------------------------------

/// Reading back property `0x11` sets its field.
proof fn lemma_connect_prop_session_expiry_interval(v: Option<u32>, tail: Seq<u8>, acc: ConnectPropertiesView)
    requires
        u32_prop(0x11, v).1,
acc.session_expiry_interval is None,
    ensures
parse_connect_props(u32_prop(0x11, v).0 + tail, acc) == parse_connect_props(tail, ConnectPropertiesView { session_expiry_interval: v, ..acc }),
{
    match v {
Some(x) => {
    let s = u32_prop(0x11, v).0 + tail;
    lemma_u32_roundtrip(x, tail);
    assert(s[0] == 0x11u8);
    assert(s.skip(1) =~= be32(x) + tail);
},
None => {
    assert(u32_prop(0x11, v).0 + tail =~= tail);
    assert((ConnectPropertiesView { session_expiry_interval: v, ..acc }) == acc);
},
    }
}

/// Reading back property `0x21` sets its field.
proof fn lemma_connect_prop_receive_maximum(v: Option<u16>, tail: Seq<u8>, acc: ConnectPropertiesView)
    requires
        u16_prop(0x21, v).1,
acc.receive_maximum is None,
    ensures
parse_connect_props(u16_prop(0x21, v).0 + tail, acc) == parse_connect_props(tail, ConnectPropertiesView { receive_maximum: v, ..acc }),
{
    match v {
Some(x) => {
    let s = u16_prop(0x21, v).0 + tail;
    lemma_u16_roundtrip(x, tail);
    assert(s[0] == 0x21u8);
    assert(s.skip(1) =~= be16(x) + tail);
},
None => {
    assert(u16_prop(0x21, v).0 + tail =~= tail);
    assert((ConnectPropertiesView { receive_maximum: v, ..acc }) == acc);
},
    }
}

/// Reading back property `0x27` sets its field.
proof fn lemma_connect_prop_max_packet_size(v: Option<u32>, tail: Seq<u8>, acc: ConnectPropertiesView)
    requires
        u32_prop(0x27, v).1,
acc.max_packet_size is None,
    ensures
parse_connect_props(u32_prop(0x27, v).0 + tail, acc) == parse_connect_props(tail, ConnectPropertiesView { max_packet_size: v, ..acc }),
{
    match v {
Some(x) => {
    let s = u32_prop(0x27, v).0 + tail;
    lemma_u32_roundtrip(x, tail);
    assert(s[0] == 0x27u8);
    assert(s.skip(1) =~= be32(x) + tail);
},
None => {
    assert(u32_prop(0x27, v).0 + tail =~= tail);
    assert((ConnectPropertiesView { max_packet_size: v, ..acc }) == acc);
},
    }
}

/// Reading back property `0x22` sets its field.
proof fn lemma_connect_prop_topic_alias_maximum(v: Option<u16>, tail: Seq<u8>, acc: ConnectPropertiesView)
    requires
        u16_prop(0x22, v).1,
acc.topic_alias_maximum is None,
    ensures
parse_connect_props(u16_prop(0x22, v).0 + tail, acc) == parse_connect_props(tail, ConnectPropertiesView { topic_alias_maximum: v, ..acc }),
{
    match v {
Some(x) => {
    let s = u16_prop(0x22, v).0 + tail;
    lemma_u16_roundtrip(x, tail);
    assert(s[0] == 0x22u8);
    assert(s.skip(1) =~= be16(x) + tail);
},
None => {
    assert(u16_prop(0x22, v).0 + tail =~= tail);
    assert((ConnectPropertiesView { topic_alias_maximum: v, ..acc }) == acc);
},
    }
}

/// Reading back property `0x19` sets its field.
proof fn lemma_connect_prop_request_response_information(v: Option<bool>, tail: Seq<u8>, acc: ConnectPropertiesView)
    requires
        bool_prop(0x19, v).1,
acc.request_response_information is None,
    ensures
parse_connect_props(bool_prop(0x19, v).0 + tail, acc) == parse_connect_props(tail, ConnectPropertiesView { request_response_information: v, ..acc }),
{
    match v {
Some(x) => {
    let s = bool_prop(0x19, v).0 + tail;
    assert((seq![flag_byte(x)] + tail)[0] == flag_byte(x));
    assert((seq![flag_byte(x)] + tail).skip(1) =~= tail);
    assert(s[0] == 0x19u8);
    assert(s.skip(1) =~= seq![flag_byte(x)] + tail);
},
None => {
    assert(bool_prop(0x19, v).0 + tail =~= tail);
    assert((ConnectPropertiesView { request_response_information: v, ..acc }) == acc);
},
    }
}

/// Reading back property `0x17` sets its field.
proof fn lemma_connect_prop_request_problem_information(v: Option<bool>, tail: Seq<u8>, acc: ConnectPropertiesView)
    requires
        bool_prop(0x17, v).1,
acc.request_problem_information is None,
    ensures
parse_connect_props(bool_prop(0x17, v).0 + tail, acc) == parse_connect_props(tail, ConnectPropertiesView { request_problem_information: v, ..acc }),
{
    match v {
Some(x) => {
    let s = bool_prop(0x17, v).0 + tail;
    assert((seq![flag_byte(x)] + tail)[0] == flag_byte(x));
    assert((seq![flag_byte(x)] + tail).skip(1) =~= tail);
    assert(s[0] == 0x17u8);
    assert(s.skip(1) =~= seq![flag_byte(x)] + tail);
},
None => {
    assert(bool_prop(0x17, v).0 + tail =~= tail);
    assert((ConnectPropertiesView { request_problem_information: v, ..acc }) == acc);
},
    }
}

/// Reading back user properties appends them, in order, to those read so far.
#[verifier::spinoff_prover]
#[verifier::rlimit(30)]
proof fn lemma_connect_user_props(us: Seq<(Seq<char>, Seq<char>)>, tail: Seq<u8>, acc: ConnectPropertiesView)
    requires
        user_props_out(us).1,
        keys_unique(acc.user_properties + us),
    ensures
parse_connect_props(user_props_out(us).0 + tail, acc) == parse_connect_props(
    tail,
    ConnectPropertiesView { user_properties: acc.user_properties + us, ..acc },
),
    decreases us.len(),
{
    if us.len() == 0 {
assert(user_props_out(us).0 + tail =~= tail);
assert(acc.user_properties + us =~= acc.user_properties);
    } else {
let us1 = us.drop_last();
let e = us.last();
let t1 = user_prop_out(e).0 + tail;
assert(user_props_out(us).0 + tail =~= user_props_out(us1).0 + t1);
let w = acc.user_properties + us1;
assert(keys_unique(w)) by {
    assert forall|a: int, b: int| 0 <= a < b < w.len() implies w[a].0 != w[b].0 by {
assert(w[a] == (acc.user_properties + us)[a]);
assert(w[b] == (acc.user_properties + us)[b]);
    }
}
assert(acc.user_properties + us1 =~= w);
lemma_connect_user_props(us1, t1, acc);
let acc1 = ConnectPropertiesView { user_properties: w, ..acc };
lemma_string_field_roundtrip(e.0, string_field(e.1).unwrap() + tail);
lemma_string_field_roundtrip(e.1, tail);
assert(t1[0] == 0x26u8);
assert(t1.skip(1) =~= string_field(e.0).unwrap() + (string_field(e.1).unwrap() + tail));
assert(!has_key(w, e.0)) by {
    if has_key(w, e.0) {
let j = choose|j: int| 0 <= j < w.len() && w[j].0 == e.0;
assert((acc.user_properties + us)[j] == w[j]);
assert((acc.user_properties + us)[w.len() as int] == e);
    }
}
assert(w.push(e) =~= acc.user_properties + us);
    }
}

/// Reading back property `0x15` sets its field.
proof fn lemma_connect_prop_authentication_method(v: Option<Seq<char>>, tail: Seq<u8>, acc: ConnectPropertiesView)
    requires
        string_prop(0x15, v).1,
acc.authentication_method is None,
    ensures
parse_connect_props(string_prop(0x15, v).0 + tail, acc) == parse_connect_props(tail, ConnectPropertiesView { authentication_method: v, ..acc }),
{
    match v {
Some(x) => {
    let s = string_prop(0x15, v).0 + tail;
    lemma_string_field_roundtrip(x, tail);
    assert(s[0] == 0x15u8);
    assert(s.skip(1) =~= string_field(x).unwrap() + tail);
},
None => {
    assert(string_prop(0x15, v).0 + tail =~= tail);
    assert((ConnectPropertiesView { authentication_method: v, ..acc }) == acc);
},
    }
}

/// Reading back property `0x16` sets its field.
proof fn lemma_connect_prop_authentication_data(v: Option<Seq<u8>>, tail: Seq<u8>, acc: ConnectPropertiesView)
    requires
        bytes_prop(0x16, v).1,
acc.authentication_data is None,
    ensures
parse_connect_props(bytes_prop(0x16, v).0 + tail, acc) == parse_connect_props(tail, ConnectPropertiesView { authentication_data: v, ..acc }),
{
    match v {
Some(x) => {
    let s = bytes_prop(0x16, v).0 + tail;
    lemma_bytes_field_roundtrip(x, tail);
    assert(s[0] == 0x16u8);
    assert(s.skip(1) =~= bytes_field(x).unwrap() + tail);
},
None => {
    assert(bytes_prop(0x16, v).0 + tail =~= tail);
    assert((ConnectPropertiesView { authentication_data: v, ..acc }) == acc);
},
    }
}

/// The fields of a CONNECT property block, one after the other.
#[verifier::opaque]
pub open spec fn connect_props_concat(pp: ConnectPropertiesView) -> Seq<u8> {
    u32_prop(0x11, pp.session_expiry_interval).0 + (u16_prop(0x21, pp.receive_maximum).0 + (u32_prop(0x27, pp.max_packet_size).0 + (u16_prop(0x22, pp.topic_alias_maximum).0 + (bool_prop(0x19, pp.request_response_information).0 + (bool_prop(0x17, pp.request_problem_information).0 + (user_props_out(pp.user_properties).0 + (string_prop(0x15, pp.authentication_method).0 + (bytes_prop(0x16, pp.authentication_data).0))))))))
}

/// When every field encodes, the block's body is its fields one after the
/// other.
#[verifier::rlimit(40)]
proof fn lemma_connect_props_body(pp: ConnectPropertiesView)
    requires
        join_all(connect_props_parts(pp)).1,
    ensures
        join_all(connect_props_parts(pp)).0 == connect_props_concat(pp),
        u32_prop(0x11, pp.session_expiry_interval).1,
        u16_prop(0x21, pp.receive_maximum).1,
        u32_prop(0x27, pp.max_packet_size).1,
        u16_prop(0x22, pp.topic_alias_maximum).1,
        bool_prop(0x19, pp.request_response_information).1,
        bool_prop(0x17, pp.request_problem_information).1,
        user_props_out(pp.user_properties).1,
        string_prop(0x15, pp.authentication_method).1,
        bytes_prop(0x16, pp.authentication_data).1,
{
    let parts = connect_props_parts(pp);
    lemma_connect_props_parts(pp);
    lemma_join_all_ok_prefix(parts, 9);
    lemma_join_all_concat(parts);
    reveal(connect_props_concat);
    reveal_with_fuel(concat_from, 11);
}


/// Reading the fields one after the other gives the properties back.
#[verifier::rlimit(40)]
proof fn lemma_connect_props_parse(pp: ConnectPropertiesView)
    requires
        u32_prop(0x11, pp.session_expiry_interval).1,
        u16_prop(0x21, pp.receive_maximum).1,
        u32_prop(0x27, pp.max_packet_size).1,
        u16_prop(0x22, pp.topic_alias_maximum).1,
        bool_prop(0x19, pp.request_response_information).1,
        bool_prop(0x17, pp.request_problem_information).1,
        user_props_out(pp.user_properties).1,
        string_prop(0x15, pp.authentication_method).1,
        bytes_prop(0x16, pp.authentication_data).1,
        keys_unique(pp.user_properties),
    ensures
parse_connect_props(connect_props_concat(pp), ConnectPropertiesView::empty()) == Decoded::Value(pp, Seq::<u8>::empty()),
{
    reveal(connect_props_concat);
    let t9 = Seq::<u8>::empty();
    let t8 = bytes_prop(0x16, pp.authentication_data).0;
    assert(bytes_prop(0x16, pp.authentication_data).0 + t9 =~= t8);
    let t7 = string_prop(0x15, pp.authentication_method).0 + t8;
    let t6 = user_props_out(pp.user_properties).0 + t7;
    let t5 = bool_prop(0x17, pp.request_problem_information).0 + t6;
    let t4 = bool_prop(0x19, pp.request_response_information).0 + t5;
    let t3 = u16_prop(0x22, pp.topic_alias_maximum).0 + t4;
    let t2 = u32_prop(0x27, pp.max_packet_size).0 + t3;
    let t1 = u16_prop(0x21, pp.receive_maximum).0 + t2;
    let t0 = u32_prop(0x11, pp.session_expiry_interval).0 + t1;
    let a0 = ConnectPropertiesView::empty();
    lemma_connect_prop_session_expiry_interval(pp.session_expiry_interval, t1, a0);
    let a1 = ConnectPropertiesView { session_expiry_interval: pp.session_expiry_interval, ..a0 };
    lemma_connect_prop_receive_maximum(pp.receive_maximum, t2, a1);
    let a2 = ConnectPropertiesView { receive_maximum: pp.receive_maximum, ..a1 };
    lemma_connect_prop_max_packet_size(pp.max_packet_size, t3, a2);
    let a3 = ConnectPropertiesView { max_packet_size: pp.max_packet_size, ..a2 };
    lemma_connect_prop_topic_alias_maximum(pp.topic_alias_maximum, t4, a3);
    let a4 = ConnectPropertiesView { topic_alias_maximum: pp.topic_alias_maximum, ..a3 };
    lemma_connect_prop_request_response_information(pp.request_response_information, t5, a4);
    let a5 = ConnectPropertiesView { request_response_information: pp.request_response_information, ..a4 };
    lemma_connect_prop_request_problem_information(pp.request_problem_information, t6, a5);
    let a6 = ConnectPropertiesView { request_problem_information: pp.request_problem_information, ..a5 };
    assert(a6.user_properties + pp.user_properties =~= pp.user_properties);
    lemma_connect_user_props(pp.user_properties, t7, a6);
    let a7 = ConnectPropertiesView { user_properties: a6.user_properties + pp.user_properties, ..a6 };
    lemma_connect_prop_authentication_method(pp.authentication_method, t8, a7);
    let a8 = ConnectPropertiesView { authentication_method: pp.authentication_method, ..a7 };
    lemma_connect_prop_authentication_data(pp.authentication_data, t9, a8);
    let a9 = ConnectPropertiesView { authentication_data: pp.authentication_data, ..a8 };
    assert(a9 == pp);
}


/// Reading back an encoded CONNECT property block gives the properties,
/// provided no user property key repeats.
pub proof fn lemma_connect_props_roundtrip(pp: ConnectPropertiesView, rest: Seq<u8>)
    requires
        connect_props_out(pp).1,
        keys_unique(pp.user_properties),
    ensures
connect_props_dec(connect_props_out(pp).0 + rest) == Decoded::Value(pp, rest),
{
    lemma_connect_props_body(pp);
    lemma_connect_props_parse(pp);
    let body = join_all(connect_props_parts(pp)).0;
    let n = body.len();
    let block = connect_props_out(pp).0 + rest;
    assert(block[0] == (n % 256) as u8);
    assert(block.skip(1) =~= body + rest);
    assert((body + rest).take(n as int) =~= body);
    assert((body + rest).skip(n as int) =~= rest);
    if n == 0 {
assert(body =~= Seq::<u8>::empty());
    }
}

// ---------------------------------------------------------------------------
// CONNACK property blocks
// ---------------------------------------------------------------------------

/// Reading back property `0x11` sets its field.
#[verifier::spinoff_prover]
proof fn lemma_connack_prop_session_expiry_interval(v: Option<u32>, tail: Seq<u8>, acc: ConnAckPropertiesView)
    requires
        u32_prop(0x11, v).1,
acc.session_expiry_interval is None,
    ensures
parse_connack_props(u32_prop(0x11, v).0 + tail, acc) == parse_connack_props(tail, ConnAckPropertiesView { session_expiry_interval: v, ..acc }),
{
    match v {
Some(x) => {
    let s = u32_prop(0x11, v).0 + tail;
    lemma_u32_roundtrip(x, tail);
    assert(s[0] == 0x11u8);
    assert(s.skip(1) =~= be32(x) + tail);
},
None => {
    assert(u32_prop(0x11, v).0 + tail =~= tail);
    assert((ConnAckPropertiesView { session_expiry_interval: v, ..acc }) == acc);
},
    }
}

/// Reading back property `0x21` sets its field.
proof fn lemma_connack_prop_receive_maximum(v: Option<u16>, tail: Seq<u8>, acc: ConnAckPropertiesView)
    requires
        u16_prop(0x21, v).1,
acc.receive_maximum is None,
    ensures
parse_connack_props(u16_prop(0x21, v).0 + tail, acc) == parse_connack_props(tail, ConnAckPropertiesView { receive_maximum: v, ..acc }),
{
    match v {
Some(x) => {
    let s = u16_prop(0x21, v).0 + tail;
    lemma_u16_roundtrip(x, tail);
    assert(s[0] == 0x21u8);
    assert(s.skip(1) =~= be16(x) + tail);
},
None => {
    assert(u16_prop(0x21, v).0 + tail =~= tail);
    assert((ConnAckPropertiesView { receive_maximum: v, ..acc }) == acc);
},
    }
}

/// Reading back property `0x24` sets its field.
proof fn lemma_connack_prop_max_qos(v: Option<u8>, tail: Seq<u8>, acc: ConnAckPropertiesView)
    requires
        u8_prop(0x24, v).1,
acc.max_qos is None,
    ensures
parse_connack_props(u8_prop(0x24, v).0 + tail, acc) == parse_connack_props(tail, ConnAckPropertiesView { max_qos: v, ..acc }),
{
    match v {
Some(x) => {
    let s = u8_prop(0x24, v).0 + tail;
    assert((seq![x] + tail)[0] == x);
    assert((seq![x] + tail).skip(1) =~= tail);
    assert(s[0] == 0x24u8);
    assert(s.skip(1) =~= seq![x] + tail);
},
None => {
    assert(u8_prop(0x24, v).0 + tail =~= tail);
    assert((ConnAckPropertiesView { max_qos: v, ..acc }) == acc);
},
    }
}

/// Reading back property `0x25` sets its field.
proof fn lemma_connack_prop_retain_available(v: Option<bool>, tail: Seq<u8>, acc: ConnAckPropertiesView)
    requires
        bool_prop(0x25, v).1,
acc.retain_available is None,
    ensures
parse_connack_props(bool_prop(0x25, v).0 + tail, acc) == parse_connack_props(tail, ConnAckPropertiesView { retain_available: v, ..acc }),
{
    match v {
Some(x) => {
    let s = bool_prop(0x25, v).0 + tail;
    assert((seq![flag_byte(x)] + tail)[0] == flag_byte(x));
    assert((seq![flag_byte(x)] + tail).skip(1) =~= tail);
    assert(s[0] == 0x25u8);
    assert(s.skip(1) =~= seq![flag_byte(x)] + tail);
},
None => {
    assert(bool_prop(0x25, v).0 + tail =~= tail);
    assert((ConnAckPropertiesView { retain_available: v, ..acc }) == acc);
},
    }
}

/// Reading back property `0x27` sets its field.
proof fn lemma_connack_prop_max_packet_size(v: Option<u32>, tail: Seq<u8>, acc: ConnAckPropertiesView)
    requires
        u32_prop(0x27, v).1,
acc.max_packet_size is None,
    ensures
parse_connack_props(u32_prop(0x27, v).0 + tail, acc) == parse_connack_props(tail, ConnAckPropertiesView { max_packet_size: v, ..acc }),
{
    match v {
Some(x) => {
    let s = u32_prop(0x27, v).0 + tail;
    lemma_u32_roundtrip(x, tail);
    assert(s[0] == 0x27u8);
    assert(s.skip(1) =~= be32(x) + tail);
},
None => {
    assert(u32_prop(0x27, v).0 + tail =~= tail);
    assert((ConnAckPropertiesView { max_packet_size: v, ..acc }) == acc);
},
    }
}

/// Reading back property `0x12` sets its field.
proof fn lemma_connack_prop_assigned_client_identifier(v: Option<Seq<char>>, tail: Seq<u8>, acc: ConnAckPropertiesView)
    requires
        string_prop(0x12, v).1,
acc.assigned_client_identifier is None,
    ensures
parse_connack_props(string_prop(0x12, v).0 + tail, acc) == parse_connack_props(tail, ConnAckPropertiesView { assigned_client_identifier: v, ..acc }),
{
    match v {
Some(x) => {
    let s = string_prop(0x12, v).0 + tail;
    lemma_string_field_roundtrip(x, tail);
    assert(s[0] == 0x12u8);
    assert(s.skip(1) =~= string_field(x).unwrap() + tail);
},
None => {
    assert(string_prop(0x12, v).0 + tail =~= tail);
    assert((ConnAckPropertiesView { assigned_client_identifier: v, ..acc }) == acc);
},
    }
}

/// Reading back property `0x22` sets its field.
proof fn lemma_connack_prop_topic_alias_maximum(v: Option<u16>, tail: Seq<u8>, acc: ConnAckPropertiesView)
    requires
        u16_prop(0x22, v).1,
acc.topic_alias_maximum is None,
    ensures
parse_connack_props(u16_prop(0x22, v).0 + tail, acc) == parse_connack_props(tail, ConnAckPropertiesView { topic_alias_maximum: v, ..acc }),
{
    match v {
Some(x) => {
    let s = u16_prop(0x22, v).0 + tail;
    lemma_u16_roundtrip(x, tail);
    assert(s[0] == 0x22u8);
    assert(s.skip(1) =~= be16(x) + tail);
},
None => {
    assert(u16_prop(0x22, v).0 + tail =~= tail);
    assert((ConnAckPropertiesView { topic_alias_maximum: v, ..acc }) == acc);
},
    }
}

/// Reading back property `0x1F` sets its field.
proof fn lemma_connack_prop_reason_string(v: Option<Seq<char>>, tail: Seq<u8>, acc: ConnAckPropertiesView)
    requires
        string_prop(0x1F, v).1,
acc.reason_string is None,
    ensures
parse_connack_props(string_prop(0x1F, v).0 + tail, acc) == parse_connack_props(tail, ConnAckPropertiesView { reason_string: v, ..acc }),
{
    match v {
Some(x) => {
    let s = string_prop(0x1F, v).0 + tail;
    lemma_string_field_roundtrip(x, tail);
    assert(s[0] == 0x1Fu8);
    assert(s.skip(1) =~= string_field(x).unwrap() + tail);
},
None => {
    assert(string_prop(0x1F, v).0 + tail =~= tail);
    assert((ConnAckPropertiesView { reason_string: v, ..acc }) == acc);
},
    }
}

/// Reading back user properties appends them, in order, to those read so far.
#[verifier::rlimit(30)]
proof fn lemma_connack_user_props(us: Seq<(Seq<char>, Seq<char>)>, tail: Seq<u8>, acc: ConnAckPropertiesView)
    requires
        user_props_out(us).1,
        keys_unique(acc.user_properties + us),
    ensures
parse_connack_props(user_props_out(us).0 + tail, acc) == parse_connack_props(
    tail,
    ConnAckPropertiesView { user_properties: acc.user_properties + us, ..acc },
),
    decreases us.len(),
{
    if us.len() == 0 {
assert(user_props_out(us).0 + tail =~= tail);
assert(acc.user_properties + us =~= acc.user_properties);
    } else {
let us1 = us.drop_last();
let e = us.last();
let t1 = user_prop_out(e).0 + tail;
assert(user_props_out(us).0 + tail =~= user_props_out(us1).0 + t1);
let w = acc.user_properties + us1;
assert(keys_unique(w)) by {
    assert forall|a: int, b: int| 0 <= a < b < w.len() implies w[a].0 != w[b].0 by {
assert(w[a] == (acc.user_properties + us)[a]);
assert(w[b] == (acc.user_properties + us)[b]);
    }
}
assert(acc.user_properties + us1 =~= w);
lemma_connack_user_props(us1, t1, acc);
let acc1 = ConnAckPropertiesView { user_properties: w, ..acc };
lemma_string_field_roundtrip(e.0, string_field(e.1).unwrap() + tail);
lemma_string_field_roundtrip(e.1, tail);
assert(t1[0] == 0x26u8);
assert(t1.skip(1) =~= string_field(e.0).unwrap() + (string_field(e.1).unwrap() + tail));
assert(!has_key(w, e.0)) by {
    if has_key(w, e.0) {
let j = choose|j: int| 0 <= j < w.len() && w[j].0 == e.0;
assert((acc.user_properties + us)[j] == w[j]);
assert((acc.user_properties + us)[w.len() as int] == e);
    }
}
assert(w.push(e) =~= acc.user_properties + us);
    }
}

/// Reading back property `0x28` sets its field.
proof fn lemma_connack_prop_wildcard_subscription_available(v: Option<bool>, tail: Seq<u8>, acc: ConnAckPropertiesView)
    requires
        bool_prop(0x28, v).1,
acc.wildcard_subscription_available is None,
    ensures
parse_connack_props(bool_prop(0x28, v).0 + tail, acc) == parse_connack_props(tail, ConnAckPropertiesView { wildcard_subscription_available: v, ..acc }),
{
    match v {
Some(x) => {
    let s = bool_prop(0x28, v).0 + tail;
    assert((seq![flag_byte(x)] + tail)[0] == flag_byte(x));
    assert((seq![flag_byte(x)] + tail).skip(1) =~= tail);
    assert(s[0] == 0x28u8);
    assert(s.skip(1) =~= seq![flag_byte(x)] + tail);
},
None => {
    assert(bool_prop(0x28, v).0 + tail =~= tail);
    assert((ConnAckPropertiesView { wildcard_subscription_available: v, ..acc }) == acc);
},
    }
}

/// Reading back property `0x29` sets its field.
proof fn lemma_connack_prop_subscription_identifiers_available(v: Option<bool>, tail: Seq<u8>, acc: ConnAckPropertiesView)
    requires
        bool_prop(0x29, v).1,
acc.subscription_identifiers_available is None,
    ensures
parse_connack_props(bool_prop(0x29, v).0 + tail, acc) == parse_connack_props(tail, ConnAckPropertiesView { subscription_identifiers_available: v, ..acc }),
{
    match v {
Some(x) => {
    let s = bool_prop(0x29, v).0 + tail;
    assert((seq![flag_byte(x)] + tail)[0] == flag_byte(x));
    assert((seq![flag_byte(x)] + tail).skip(1) =~= tail);
    assert(s[0] == 0x29u8);
    assert(s.skip(1) =~= seq![flag_byte(x)] + tail);
},
None => {
    assert(bool_prop(0x29, v).0 + tail =~= tail);
    assert((ConnAckPropertiesView { subscription_identifiers_available: v, ..acc }) == acc);
},
    }
}

/// Reading back property `0x2A` sets its field.
proof fn lemma_connack_prop_shared_subscription_available(v: Option<bool>, tail: Seq<u8>, acc: ConnAckPropertiesView)
    requires
        bool_prop(0x2A, v).1,
acc.shared_subscription_available is None,
    ensures
parse_connack_props(bool_prop(0x2A, v).0 + tail, acc) == parse_connack_props(tail, ConnAckPropertiesView { shared_subscription_available: v, ..acc }),
{
    match v {
Some(x) => {
    let s = bool_prop(0x2A, v).0 + tail;
    assert((seq![flag_byte(x)] + tail)[0] == flag_byte(x));
    assert((seq![flag_byte(x)] + tail).skip(1) =~= tail);
    assert(s[0] == 0x2Au8);
    assert(s.skip(1) =~= seq![flag_byte(x)] + tail);
},
None => {
    assert(bool_prop(0x2A, v).0 + tail =~= tail);
    assert((ConnAckPropertiesView { shared_subscription_available: v, ..acc }) == acc);
},
    }
}

/// Reading back property `0x13` sets its field.
proof fn lemma_connack_prop_server_keep_alive(v: Option<u16>, tail: Seq<u8>, acc: ConnAckPropertiesView)
    requires
        u16_prop(0x13, v).1,
acc.server_keep_alive is None,
    ensures
parse_connack_props(u16_prop(0x13, v).0 + tail, acc) == parse_connack_props(tail, ConnAckPropertiesView { server_keep_alive: v, ..acc }),
{
    match v {
Some(x) => {
    let s = u16_prop(0x13, v).0 + tail;
    lemma_u16_roundtrip(x, tail);
    assert(s[0] == 0x13u8);
    assert(s.skip(1) =~= be16(x) + tail);
},
None => {
    assert(u16_prop(0x13, v).0 + tail =~= tail);
    assert((ConnAckPropertiesView { server_keep_alive: v, ..acc }) == acc);
},
    }
}

/// Reading back property `0x1A` sets its field.
proof fn lemma_connack_prop_response_information(v: Option<Seq<char>>, tail: Seq<u8>, acc: ConnAckPropertiesView)
    requires
        string_prop(0x1A, v).1,
acc.response_information is None,
    ensures
parse_connack_props(string_prop(0x1A, v).0 + tail, acc) == parse_connack_props(tail, ConnAckPropertiesView { response_information: v, ..acc }),
{
    match v {
Some(x) => {
    let s = string_prop(0x1A, v).0 + tail;
    lemma_string_field_roundtrip(x, tail);
    assert(s[0] == 0x1Au8);
    assert(s.skip(1) =~= string_field(x).unwrap() + tail);
},
None => {
    assert(string_prop(0x1A, v).0 + tail =~= tail);
    assert((ConnAckPropertiesView { response_information: v, ..acc }) == acc);
},
    }
}

/// Reading back property `0x1C` sets its field.
proof fn lemma_connack_prop_server_reference(v: Option<Seq<char>>, tail: Seq<u8>, acc: ConnAckPropertiesView)
    requires
        string_prop(0x1C, v).1,
acc.server_reference is None,
    ensures
parse_connack_props(string_prop(0x1C, v).0 + tail, acc) == parse_connack_props(tail, ConnAckPropertiesView { server_reference: v, ..acc }),
{
    match v {
Some(x) => {
    let s = string_prop(0x1C, v).0 + tail;
    lemma_string_field_roundtrip(x, tail);
    assert(s[0] == 0x1Cu8);
    assert(s.skip(1) =~= string_field(x).unwrap() + tail);
},
None => {
    assert(string_prop(0x1C, v).0 + tail =~= tail);
    assert((ConnAckPropertiesView { server_reference: v, ..acc }) == acc);
},
    }
}

/// Reading back property `0x15` sets its field.
proof fn lemma_connack_prop_authentication_method(v: Option<Seq<char>>, tail: Seq<u8>, acc: ConnAckPropertiesView)
    requires
        string_prop(0x15, v).1,
acc.authentication_method is None,
    ensures
parse_connack_props(string_prop(0x15, v).0 + tail, acc) == parse_connack_props(tail, ConnAckPropertiesView { authentication_method: v, ..acc }),
{
    match v {
Some(x) => {
    let s = string_prop(0x15, v).0 + tail;
    lemma_string_field_roundtrip(x, tail);
    assert(s[0] == 0x15u8);
    assert(s.skip(1) =~= string_field(x).unwrap() + tail);
},
None => {
    assert(string_prop(0x15, v).0 + tail =~= tail);
    assert((ConnAckPropertiesView { authentication_method: v, ..acc }) == acc);
},
    }
}

/// Reading back property `0x16` sets its field.
proof fn lemma_connack_prop_authentication_data(v: Option<Seq<u8>>, tail: Seq<u8>, acc: ConnAckPropertiesView)
    requires
        bytes_prop(0x16, v).1,
acc.authentication_data is None,
    ensures
parse_connack_props(bytes_prop(0x16, v).0 + tail, acc) == parse_connack_props(tail, ConnAckPropertiesView { authentication_data: v, ..acc }),
{
    match v {
Some(x) => {
    let s = bytes_prop(0x16, v).0 + tail;
    lemma_bytes_field_roundtrip(x, tail);
    assert(s[0] == 0x16u8);
    assert(s.skip(1) =~= bytes_field(x).unwrap() + tail);
},
None => {
    assert(bytes_prop(0x16, v).0 + tail =~= tail);
    assert((ConnAckPropertiesView { authentication_data: v, ..acc }) == acc);
},
    }
}

/// The fields of a CONNACK property block, one after the other.
#[verifier::opaque]
pub open spec fn connack_props_concat(pp: ConnAckPropertiesView) -> Seq<u8> {
    u32_prop(0x11, pp.session_expiry_interval).0 + (u16_prop(0x21, pp.receive_maximum).0 + (u8_prop(0x24, pp.max_qos).0 + (bool_prop(0x25, pp.retain_available).0 + (u32_prop(0x27, pp.max_packet_size).0 + (string_prop(0x12, pp.assigned_client_identifier).0 + (u16_prop(0x22, pp.topic_alias_maximum).0 + (string_prop(0x1F, pp.reason_string).0 + (user_props_out(pp.user_properties).0 + (bool_prop(0x28, pp.wildcard_subscription_available).0 + (bool_prop(0x29, pp.subscription_identifiers_available).0 + (bool_prop(0x2A, pp.shared_subscription_available).0 + (u16_prop(0x13, pp.server_keep_alive).0 + (string_prop(0x1A, pp.response_information).0 + (string_prop(0x1C, pp.server_reference).0 + (string_prop(0x15, pp.authentication_method).0 + (bytes_prop(0x16, pp.authentication_data).0))))))))))))))))
}

/// When every field encodes, the block's body is its fields one after the
/// other.
#[verifier::rlimit(40)]
proof fn lemma_connack_props_body(pp: ConnAckPropertiesView)
    requires
        join_all(connack_props_parts(pp)).1,
    ensures
        join_all(connack_props_parts(pp)).0 == connack_props_concat(pp),
        u32_prop(0x11, pp.session_expiry_interval).1,
        u16_prop(0x21, pp.receive_maximum).1,
        u8_prop(0x24, pp.max_qos).1,
        bool_prop(0x25, pp.retain_available).1,
        u32_prop(0x27, pp.max_packet_size).1,
        string_prop(0x12, pp.assigned_client_identifier).1,
        u16_prop(0x22, pp.topic_alias_maximum).1,
        string_prop(0x1F, pp.reason_string).1,
        user_props_out(pp.user_properties).1,
        bool_prop(0x28, pp.wildcard_subscription_available).1,
        bool_prop(0x29, pp.subscription_identifiers_available).1,
        bool_prop(0x2A, pp.shared_subscription_available).1,
        u16_prop(0x13, pp.server_keep_alive).1,
        string_prop(0x1A, pp.response_information).1,
        string_prop(0x1C, pp.server_reference).1,
        string_prop(0x15, pp.authentication_method).1,
        bytes_prop(0x16, pp.authentication_data).1,
{
    let parts = connack_props_parts(pp);
    lemma_connack_props_parts(pp);
    lemma_join_all_ok_prefix(parts, 17);
    lemma_join_all_concat(parts);
    reveal(connack_props_concat);
    reveal_with_fuel(concat_from, 19);
}


/// Reading the fields one after the other gives the properties back.
#[verifier::rlimit(40)]
proof fn lemma_connack_props_parse(pp: ConnAckPropertiesView)
    requires
        u32_prop(0x11, pp.session_expiry_interval).1,
        u16_prop(0x21, pp.receive_maximum).1,
        u8_prop(0x24, pp.max_qos).1,
        bool_prop(0x25, pp.retain_available).1,
        u32_prop(0x27, pp.max_packet_size).1,
        string_prop(0x12, pp.assigned_client_identifier).1,
        u16_prop(0x22, pp.topic_alias_maximum).1,
        string_prop(0x1F, pp.reason_string).1,
        user_props_out(pp.user_properties).1,
        bool_prop(0x28, pp.wildcard_subscription_available).1,
        bool_prop(0x29, pp.subscription_identifiers_available).1,
        bool_prop(0x2A, pp.shared_subscription_available).1,
        u16_prop(0x13, pp.server_keep_alive).1,
        string_prop(0x1A, pp.response_information).1,
        string_prop(0x1C, pp.server_reference).1,
        string_prop(0x15, pp.authentication_method).1,
        bytes_prop(0x16, pp.authentication_data).1,
        keys_unique(pp.user_properties),
    ensures
parse_connack_props(connack_props_concat(pp), ConnAckPropertiesView::empty()) == Decoded::Value(pp, Seq::<u8>::empty()),
{
    reveal(connack_props_concat);
    let t17 = Seq::<u8>::empty();
    let t16 = bytes_prop(0x16, pp.authentication_data).0;
    assert(bytes_prop(0x16, pp.authentication_data).0 + t17 =~= t16);
    let t15 = string_prop(0x15, pp.authentication_method).0 + t16;
    let t14 = string_prop(0x1C, pp.server_reference).0 + t15;
    let t13 = string_prop(0x1A, pp.response_information).0 + t14;
    let t12 = u16_prop(0x13, pp.server_keep_alive).0 + t13;
    let t11 = bool_prop(0x2A, pp.shared_subscription_available).0 + t12;
    let t10 = bool_prop(0x29, pp.subscription_identifiers_available).0 + t11;
    let t9 = bool_prop(0x28, pp.wildcard_subscription_available).0 + t10;
    let t8 = user_props_out(pp.user_properties).0 + t9;
    let t7 = string_prop(0x1F, pp.reason_string).0 + t8;
    let t6 = u16_prop(0x22, pp.topic_alias_maximum).0 + t7;
    let t5 = string_prop(0x12, pp.assigned_client_identifier).0 + t6;
    let t4 = u32_prop(0x27, pp.max_packet_size).0 + t5;
    let t3 = bool_prop(0x25, pp.retain_available).0 + t4;
    let t2 = u8_prop(0x24, pp.max_qos).0 + t3;
    let t1 = u16_prop(0x21, pp.receive_maximum).0 + t2;
    let t0 = u32_prop(0x11, pp.session_expiry_interval).0 + t1;
    let a0 = ConnAckPropertiesView::empty();
    lemma_connack_prop_session_expiry_interval(pp.session_expiry_interval, t1, a0);
    let a1 = ConnAckPropertiesView { session_expiry_interval: pp.session_expiry_interval, ..a0 };
    lemma_connack_prop_receive_maximum(pp.receive_maximum, t2, a1);
    let a2 = ConnAckPropertiesView { receive_maximum: pp.receive_maximum, ..a1 };
    lemma_connack_prop_max_qos(pp.max_qos, t3, a2);
    let a3 = ConnAckPropertiesView { max_qos: pp.max_qos, ..a2 };
    lemma_connack_prop_retain_available(pp.retain_available, t4, a3);
    let a4 = ConnAckPropertiesView { retain_available: pp.retain_available, ..a3 };
    lemma_connack_prop_max_packet_size(pp.max_packet_size, t5, a4);
    let a5 = ConnAckPropertiesView { max_packet_size: pp.max_packet_size, ..a4 };
    lemma_connack_prop_assigned_client_identifier(pp.assigned_client_identifier, t6, a5);
    let a6 = ConnAckPropertiesView { assigned_client_identifier: pp.assigned_client_identifier, ..a5 };
    lemma_connack_prop_topic_alias_maximum(pp.topic_alias_maximum, t7, a6);
    let a7 = ConnAckPropertiesView { topic_alias_maximum: pp.topic_alias_maximum, ..a6 };
    lemma_connack_prop_reason_string(pp.reason_string, t8, a7);
    let a8 = ConnAckPropertiesView { reason_string: pp.reason_string, ..a7 };
    assert(a8.user_properties + pp.user_properties =~= pp.user_properties);
    lemma_connack_user_props(pp.user_properties, t9, a8);
    let a9 = ConnAckPropertiesView { user_properties: a8.user_properties + pp.user_properties, ..a8 };
    lemma_connack_prop_wildcard_subscription_available(pp.wildcard_subscription_available, t10, a9);
    let a10 = ConnAckPropertiesView { wildcard_subscription_available: pp.wildcard_subscription_available, ..a9 };
    lemma_connack_prop_subscription_identifiers_available(pp.subscription_identifiers_available, t11, a10);
    let a11 = ConnAckPropertiesView { subscription_identifiers_available: pp.subscription_identifiers_available, ..a10 };
    lemma_connack_prop_shared_subscription_available(pp.shared_subscription_available, t12, a11);
    let a12 = ConnAckPropertiesView { shared_subscription_available: pp.shared_subscription_available, ..a11 };
    lemma_connack_prop_server_keep_alive(pp.server_keep_alive, t13, a12);
    let a13 = ConnAckPropertiesView { server_keep_alive: pp.server_keep_alive, ..a12 };
    lemma_connack_prop_response_information(pp.response_information, t14, a13);
    let a14 = ConnAckPropertiesView { response_information: pp.response_information, ..a13 };
    lemma_connack_prop_server_reference(pp.server_reference, t15, a14);
    let a15 = ConnAckPropertiesView { server_reference: pp.server_reference, ..a14 };
    lemma_connack_prop_authentication_method(pp.authentication_method, t16, a15);
    let a16 = ConnAckPropertiesView { authentication_method: pp.authentication_method, ..a15 };
    lemma_connack_prop_authentication_data(pp.authentication_data, t17, a16);
    let a17 = ConnAckPropertiesView { authentication_data: pp.authentication_data, ..a16 };
    assert(a17 == pp);
}


/// Reading back an encoded CONNACK property block gives the properties,
/// provided their values are in range and no user property key repeats.
pub proof fn lemma_connack_props_roundtrip(pp: ConnAckPropertiesView, rest: Seq<u8>)
    requires
        connack_props_valid(pp),
        connack_props_block(pp).1,
        keys_unique(pp.user_properties),
    ensures
connack_props_dec(connack_props_block(pp).0 + rest) == Decoded::Value(pp, rest),
{
    lemma_connack_props_body(pp);
    lemma_connack_props_parse(pp);
    let body = join_all(connack_props_parts(pp)).0;
    let n = body.len();
    let block = connack_props_block(pp).0 + rest;
    assert(block[0] == (n % 256) as u8);
    assert(block.skip(1) =~= body + rest);
    assert((body + rest).take(n as int) =~= body);
    assert((body + rest).skip(n as int) =~= rest);
    if n == 0 {
assert(body =~= Seq::<u8>::empty());
    }
}


// ---------------------------------------------------------------------------
// Payloads
// ---------------------------------------------------------------------------

/// The CONNECT packets that read back as written: the will topic and
/// message are present exactly with the will flag (and without it the will's
/// QoS and retain are unset), the username and password exactly with their
/// flags, and the properties exactly under MQTT 5.0, without a repeated user
/// property key.
pub open spec fn connect_roundtrips(c: ConnectPacketView, version: u8) -> bool {
    &&& c.will_qos <= 3
    &&& (c.will_flag ==> c.will_topic is Some && c.will_message is Some)
    &&& (!c.will_flag ==> c.will_topic is None && c.will_message is None && c.will_qos == 0 && !c.will_retain)
    &&& (c.username_flag <==> c.username is Some)
    &&& (c.password_flag <==> c.password is Some)
    &&& ((version == 5) <==> c.properties is Some)
    &&& (c.properties matches Some(pp) ==> keys_unique(pp.user_properties))
}

/// The optional fields of a CONNECT payload, one after the other, then `rest`.
pub open spec fn connect_tail_bytes(c: ConnectPacketView, version: u8, rest: Seq<u8>) -> Seq<u8> {
    (if c.will_flag { opt_string_out(c.will_topic) } else { start() }).0 + ((if c.will_flag {
        opt_bytes_out(c.will_message)
    } else {
        start()
    }).0 + ((if c.username_flag { opt_string_out(c.username) } else { start() }).0 + ((if c.password_flag {
        opt_string_out(c.password)
    } else {
        start()
    }).0 + ((if version == 5 && c.properties is Some {
        connect_props_out(c.properties.unwrap())
    } else {
        start()
    }).0 + rest))))
}

/// Reading back the optional fields of a CONNECT payload gives them.
#[verifier::rlimit(30)]
proof fn lemma_connect_tail(c: ConnectPacketView, version: u8, rest: Seq<u8>)
    requires
        connect_roundtrips(c, version),
        (if c.will_flag { opt_string_out(c.will_topic) } else { start() }).1,
        (if c.will_flag { opt_bytes_out(c.will_message) } else { start() }).1,
        (if c.username_flag { opt_string_out(c.username) } else { start() }).1,
        (if c.password_flag { opt_string_out(c.password) } else { start() }).1,
        (if version == 5 && c.properties is Some { connect_props_out(c.properties.unwrap()) } else { start() }).1,
    ensures
        connect_tail_dec(
            c.protocol_name,
            c.protocol_version,
            connect_flags(c),
            c.keep_alive,
            c.client_id,
            connect_tail_bytes(c, version, rest),
            version,
        ) == Decoded::Value(c, rest),
{
    let p7 = (if version == 5 && c.properties is Some { connect_props_out(c.properties.unwrap()) } else { start() }).0;
    let p6 = (if c.password_flag { opt_string_out(c.password) } else { start() }).0;
    let p5 = (if c.username_flag { opt_string_out(c.username) } else { start() }).0;
    let p4 = (if c.will_flag { opt_bytes_out(c.will_message) } else { start() }).0;
    let t8 = rest;
    let t7 = p7 + t8;
    let t6 = p6 + t7;
    let t5 = p5 + t6;
    let t4 = p4 + t5;
    lemma_connect_flag_bits(
        c.clean_session,
        c.will_flag,
        c.will_qos,
        c.will_retain,
        c.password_flag,
        c.username_flag,
    );
    if c.will_flag {
        lemma_string_field_roundtrip(c.will_topic.unwrap(), t4);
        lemma_bytes_field_roundtrip(c.will_message.unwrap(), t5);
    } else {
        assert(p4 + t5 =~= t5);
        assert(connect_tail_bytes(c, version, rest) =~= t5);
    }
    if c.username_flag {
        lemma_string_field_roundtrip(c.username.unwrap(), t6);
    } else {
        assert(p5 + t6 =~= t6);
    }
    if c.password_flag {
        lemma_string_field_as_bytes(c.password.unwrap(), t7);
    } else {
        assert(p6 + t7 =~= t7);
    }
    if version == 5 {
        lemma_connect_props_roundtrip(c.properties.unwrap(), rest);
    } else {
        assert(p7 + t8 =~= t8);
    }
}

/// A CONNECT payload that encodes is its protocol name, its fixed fields,
/// its client ID, then its optional fields.
#[verifier::rlimit(80)]
proof fn lemma_connect_body(c: ConnectPacketView, version: u8, rest: Seq<u8>)
    requires
        connect_out(c, version).1,
    ensures
        string_field(c.protocol_name) is Some,
        string_field(c.client_id) is Some,
        connect_out(c, version).0 + rest == string_field(c.protocol_name).unwrap() + (
            (seq![c.protocol_version, connect_flags(c)] + be16(c.keep_alive)) + (string_field(
            c.client_id,
        ).unwrap() + connect_tail_bytes(c, version, rest))),
        (if c.will_flag { opt_string_out(c.will_topic) } else { start() }).1,
        (if c.will_flag { opt_bytes_out(c.will_message) } else { start() }).1,
        (if c.username_flag { opt_string_out(c.username) } else { start() }).1,
        (if c.password_flag { opt_string_out(c.password) } else { start() }).1,
        (if version == 5 && c.properties is Some { connect_props_out(c.properties.unwrap()) } else { start() }).1,
{
    let parts = connect_parts(c, version);
    lemma_connect_parts(c, version);
    lemma_join_all_ok_prefix(parts, 8);
    lemma_join_all_concat(parts);
    reveal_with_fuel(concat_from, 10);
    assert(connect_out(c, version).0 + rest =~= string_field(c.protocol_name).unwrap() + (
        (seq![c.protocol_version, connect_flags(c)] + be16(c.keep_alive)) + (string_field(
        c.client_id,
    ).unwrap() + connect_tail_bytes(c, version, rest))));
}

/// Reading back a CONNECT payload gives the packet.
#[verifier::rlimit(30)]
pub proof fn lemma_connect_roundtrip(c: ConnectPacketView, version: u8, rest: Seq<u8>)
    requires
        connect_roundtrips(c, version),
        connect_out(c, version).1,
    ensures
        connect_dec(connect_out(c, version).0 + rest, version) == Decoded::Value(c, rest),
{
    lemma_connect_body(c, version, rest);
    let t3 = connect_tail_bytes(c, version, rest);
    let t2 = string_field(c.client_id).unwrap() + t3;
    let t1 = (seq![c.protocol_version, connect_flags(c)] + be16(c.keep_alive)) + t2;
    lemma_string_field_roundtrip(c.protocol_name, t1);
    lemma_be16_roundtrip(c.keep_alive);
    assert(t1[0] == c.protocol_version);
    assert(t1[1] == connect_flags(c));
    assert(t1[2] == be16(c.keep_alive)[0]);
    assert(t1[3] == be16(c.keep_alive)[1]);
    assert(t1.skip(4) =~= t2);
    lemma_string_field_roundtrip(c.client_id, t3);
    lemma_connect_tail(c, version, rest);
}

/// The CONNACK packets that read back as written: properties exactly under
/// MQTT 5.0, without a repeated user property key.
pub open spec fn connack_roundtrips(c: ConnAckPacketView, version: u8) -> bool {
    &&& ((version == 5) <==> c.properties is Some)
    &&& (c.properties matches Some(pp) ==> keys_unique(pp.user_properties))
}

/// Reading back a CONNACK payload gives the packet.
pub proof fn lemma_connack_roundtrip(c: ConnAckPacketView, version: u8, rest: Seq<u8>)
    requires
        connack_roundtrips(c, version),
        connack_out(c, version).1,
    ensures
        connack_dec(connack_out(c, version).0 + rest, version) == Decoded::Value(c, rest),
{
    let s = connack_out(c, version).0 + rest;
    let props = if version == 5 { connack_props_out(c.properties.unwrap()).0 } else { Seq::empty() };
    assert(s =~= seq![flag_byte(c.session_present), c.return_code.spec_code()] + (props + rest));
    assert(s[0] == flag_byte(c.session_present));
    assert(s[1] == c.return_code.spec_code());
    assert(s.skip(2) =~= props + rest);
    lemma_connect_return_code_roundtrip(c.return_code);
    assert(((1u8 & 0x01u8) != 0) && !((0u8 & 0x01u8) != 0)) by (bit_vector);
    if version == 5 {
        lemma_connack_props_roundtrip(c.properties.unwrap(), rest);
    } else {
        assert(props + rest =~= rest);
    }
}

/// The PUBLISH packets that read back as written under a header with QoS
/// `qos`: a packet ID exactly when the QoS is above 0, and under MQTT 5.0
/// empty properties (otherwise none), since properties are not put on the
/// wire.
pub open spec fn publish_roundtrips(p: PublishPacketView, qos: u8, version: u8) -> bool {
    &&& (p.packet_id is Some <==> qos > 0)
    &&& (version == 5 ==> p.properties == Some(PublishPropertiesView::empty()))
    &&& (version != 5 ==> p.properties is None)
}

/// Reading back a PUBLISH payload gives the packet; the application payload
/// takes everything after the topic and packet ID.
pub proof fn lemma_publish_roundtrip(p: PublishPacketView, qos: u8, version: u8)
    requires
        publish_roundtrips(p, qos, version),
        publish_out(p).1,
    ensures
        publish_dec(qos, publish_out(p).0, version) == Decoded::Value(p, Seq::<u8>::empty()),
{
    let t1 = opt_id_bytes(p.packet_id) + p.payload;
    lemma_string_field_roundtrip(p.topic_name, t1);
    assert(publish_out(p).0 =~= string_field(p.topic_name).unwrap() + t1);
    if qos > 0 {
        lemma_be16_roundtrip(p.packet_id.unwrap());
        assert(t1[0] == be16(p.packet_id.unwrap())[0]);
        assert(t1[1] == be16(p.packet_id.unwrap())[1]);
        assert(t1.skip(2) =~= p.payload);
    } else {
        assert(t1 =~= p.payload);
    }
}

/// The acknowledgments that read back as written: no properties, and a
/// reason code only under MQTT 5.0.
pub open spec fn ack_roundtrips(a: AckView, version: u8) -> bool {
    &&& !a.has_properties
    &&& (version != 5 ==> a.reason_code is None)
}

/// Reading back an acknowledgment gives it.
pub proof fn lemma_ack_roundtrip(a: AckView, version: u8, rest: Seq<u8>)
    requires
        ack_roundtrips(a, version),
        version == 5 && a.reason_code is None ==> rest.len() == 0,
    ensures
        ack_dec(ack_out(a, version).0 + rest, version) == Decoded::Value(a, rest),
{
    let s = ack_out(a, version).0 + rest;
    lemma_be16_roundtrip(a.packet_id);
    assert(s[0] == be16(a.packet_id)[0]);
    assert(s[1] == be16(a.packet_id)[1]);
    if version == 5 && a.reason_code is Some {
        assert(s[2] == a.reason_code.unwrap());
        assert(s.skip(3) =~= rest);
    } else {
        assert(s.skip(2) =~= rest);
    }
}

/// The SUBSCRIBE packets that read back as written: no properties, and
/// only the QoS of each subscription set (the other options are not on the
/// wire).
pub open spec fn subscribe_roundtrips(p: SubscribePacketView) -> bool {
    &&& !p.has_properties
    &&& forall|i: int| 0 <= i < p.topic_filters.len() ==> #[trigger] p.topic_filters[i] == wire_filter(
        p.topic_filters[i].topic,
        p.topic_filters[i].qos,
    )
}

/// Reading back topic filters appends them to those read so far.
proof fn lemma_filters_roundtrip(fs: Seq<TopicFilterView>, tail: Seq<u8>, acc: Seq<TopicFilterView>)
    requires
        join_all(filters_parts(fs)).1,
        forall|i: int| 0 <= i < fs.len() ==> #[trigger] fs[i] == wire_filter(fs[i].topic, fs[i].qos),
    ensures
        parse_filters(join_all(filters_parts(fs)).0 + tail, acc) == parse_filters(tail, acc + fs),
    decreases fs.len(),
{
    reveal(join_all);
    if fs.len() == 0 {
        assert(join_all(filters_parts(fs)).0 + tail =~= tail);
        assert(acc + fs =~= acc);
    } else {
        let fs1 = fs.drop_last();
        let f = fs.last();
        assert(filters_parts(fs).drop_last() =~= filters_parts(fs1));
        assert(filters_parts(fs).last() == filter_out(f));
        let t1 = filter_out(f).0 + tail;
        assert(join_all(filters_parts(fs)).0 + tail =~= join_all(filters_parts(fs1)).0 + t1);
        lemma_filters_roundtrip(fs1, t1, acc);
        lemma_string_field_roundtrip(f.topic, seq![f.qos] + tail);
        assert(t1 =~= string_field(f.topic).unwrap() + (seq![f.qos] + tail));
        assert((seq![f.qos] + tail)[0] == f.qos);
        assert((seq![f.qos] + tail).skip(1) =~= tail);
        assert((acc + fs1).push(wire_filter(f.topic, f.qos)) =~= acc + fs);
    }
}

/// Reading back a SUBSCRIBE payload gives the packet.
pub proof fn lemma_subscribe_roundtrip(p: SubscribePacketView)
    requires
        subscribe_roundtrips(p),
        subscribe_out(p).1,
    ensures
        subscribe_dec(subscribe_out(p).0) == Decoded::Value(p, Seq::<u8>::empty()),
{
    let body = join_all(filters_parts(p.topic_filters)).0;
    let s = subscribe_out(p).0;
    lemma_be16_roundtrip(p.packet_id);
    assert(s =~= be16(p.packet_id) + body);
    assert(s[0] == be16(p.packet_id)[0]);
    assert(s[1] == be16(p.packet_id)[1]);
    assert(s.skip(2) =~= body + Seq::<u8>::empty());
    lemma_filters_roundtrip(p.topic_filters, Seq::empty(), Seq::empty());
    assert(Seq::<TopicFilterView>::empty() + p.topic_filters =~= p.topic_filters);
}

/// Reading back a SUBACK payload gives the packet when it has no
/// properties.
pub proof fn lemma_suback_roundtrip(p: SubAckPacketView)
    requires
        !p.has_properties,
    ensures
        suback_dec(suback_out(p).0) == Decoded::Value(p, Seq::<u8>::empty()),
{
    let s = suback_out(p).0;
    lemma_be16_roundtrip(p.packet_id);
    assert(s[0] == be16(p.packet_id)[0]);
    assert(s[1] == be16(p.packet_id)[1]);
    assert(s.skip(2) =~= p.return_codes);
}

/// Reading back topics appends them to those read so far.
proof fn lemma_topics_roundtrip(ts: Seq<Seq<char>>, tail: Seq<u8>, acc: Seq<Seq<char>>)
    requires
        join_all(topics_parts(ts)).1,
    ensures
        parse_topics(join_all(topics_parts(ts)).0 + tail, acc) == parse_topics(tail, acc + ts),
    decreases ts.len(),
{
    reveal(join_all);
    if ts.len() == 0 {
        assert(join_all(topics_parts(ts)).0 + tail =~= tail);
        assert(acc + ts =~= acc);
    } else {
        let ts1 = ts.drop_last();
        let t = ts.last();
        assert(topics_parts(ts).drop_last() =~= topics_parts(ts1));
        assert(topics_parts(ts).last() == piece(string_field(t)));
        let t1 = string_field(t).unwrap() + tail;
        assert(join_all(topics_parts(ts)).0 + tail =~= join_all(topics_parts(ts1)).0 + t1);
        lemma_topics_roundtrip(ts1, t1, acc);
        lemma_string_field_roundtrip(t, tail);
        assert((acc + ts1).push(t) =~= acc + ts);
    }
}

/// Reading back an UNSUBSCRIBE payload gives the packet when it has no
/// properties.
pub proof fn lemma_unsubscribe_roundtrip(p: UnsubscribePacketView)
    requires
        !p.has_properties,
        unsubscribe_out(p).1,
    ensures
        unsubscribe_dec(unsubscribe_out(p).0) == Decoded::Value(p, Seq::<u8>::empty()),
{
    let body = join_all(topics_parts(p.topic_filters)).0;
    let s = unsubscribe_out(p).0;
    lemma_be16_roundtrip(p.packet_id);
    assert(s =~= be16(p.packet_id) + body);
    assert(s[0] == be16(p.packet_id)[0]);
    assert(s[1] == be16(p.packet_id)[1]);
    assert(s.skip(2) =~= body + Seq::<u8>::empty());
    lemma_topics_roundtrip(p.topic_filters, Seq::empty(), Seq::empty());
    assert(Seq::<Seq<char>>::empty() + p.topic_filters =~= p.topic_filters);
}

/// The UNSUBACK packets that read back as written: no properties, and
/// reason codes only under MQTT 5.0.
pub open spec fn unsuback_roundtrips(p: UnsubAckPacketView, version: u8) -> bool {
    &&& !p.has_properties
    &&& (version != 5 ==> p.reason_codes.len() == 0)
}

/// Reading back an UNSUBACK payload gives the packet.
pub proof fn lemma_unsuback_roundtrip(p: UnsubAckPacketView, version: u8)
    requires
        unsuback_roundtrips(p, version),
    ensures
        unsuback_dec(unsuback_out(p, version).0, version) matches Decoded::Value(q, _) && q == p,
{
    let s = unsuback_out(p, version).0;
    lemma_be16_roundtrip(p.packet_id);
    assert(s[0] == be16(p.packet_id)[0]);
    assert(s[1] == be16(p.packet_id)[1]);
    if version == 5 {
        assert(s.skip(2) =~= p.reason_codes);
    } else {
        assert(p.reason_codes =~= Seq::<u8>::empty());
    }
}


// ---------------------------------------------------------------------------
// Whole packets
// ---------------------------------------------------------------------------

/// The payloads that read back as written under a header `h`: the header
/// names the payload's packet type, and the payload is one its decoder
/// gives back. AUTH is refused when read, so it never reads back.
pub open spec fn payload_roundtrips(h: PacketHeader, p: PayloadView, version: u8) -> bool {
    match p {
        PayloadView::Connect(c) => h.packet_type == PacketType::Connect && connect_roundtrips(c, version),
        PayloadView::ConnAck(c) => h.packet_type == PacketType::ConnAck && connack_roundtrips(c, version),
        PayloadView::Publish(x) => h.packet_type == PacketType::Publish && publish_roundtrips(x, h.qos, version),
        PayloadView::PubAck(a) => h.packet_type == PacketType::PubAck && ack_roundtrips(a, version),
        PayloadView::PubRec(a) => h.packet_type == PacketType::PubRec && ack_roundtrips(a, version),
        PayloadView::PubRel(a) => h.packet_type == PacketType::PubRel && ack_roundtrips(a, version),
        PayloadView::PubComp(a) => h.packet_type == PacketType::PubComp && ack_roundtrips(a, version),
        PayloadView::Subscribe(x) => h.packet_type == PacketType::Subscribe && subscribe_roundtrips(x),
        PayloadView::SubAck(x) => h.packet_type == PacketType::SubAck && !x.has_properties,
        PayloadView::Unsubscribe(x) => h.packet_type == PacketType::Unsubscribe && !x.has_properties,
        PayloadView::UnsubAck(x) => h.packet_type == PacketType::UnsubAck && unsuback_roundtrips(x, version),
        PayloadView::PingReq => h.packet_type == PacketType::PingReq,
        PayloadView::PingResp => h.packet_type == PacketType::PingResp,
        PayloadView::Disconnect(d) => h.packet_type == PacketType::Disconnect && d == DisconnectPacketView {
            reason_code: None,
            has_properties: false,
        },
        PayloadView::Auth(_) => false,
    }
}

/// The packets that read back as written: a QoS that fits its two bits and
/// a payload that reads back.
pub open spec fn packet_roundtrips(p: PacketView, version: u8) -> bool {
    p.header.qos <= 3 && payload_roundtrips(p.header, p.payload, version)
}

/// Reading back a payload gives it.
pub proof fn lemma_payload_roundtrip(h: PacketHeader, p: PayloadView, version: u8)
    requires
        payload_roundtrips(h, p, version),
        payload_out(p, version).1,
    ensures
        payload_dec(h, payload_out(p, version).0, version) matches Decoded::Value(q, _) && q == p,
{
    let e = Seq::<u8>::empty();
    match p {
        PayloadView::Connect(c) => {
            lemma_connect_roundtrip(c, version, e);
            assert(connect_out(c, version).0 + e =~= connect_out(c, version).0);
        },
        PayloadView::ConnAck(c) => {
            lemma_connack_roundtrip(c, version, e);
            assert(connack_out(c, version).0 + e =~= connack_out(c, version).0);
        },
        PayloadView::Publish(x) => {
            lemma_publish_roundtrip(x, h.qos, version);
        },
        PayloadView::PubAck(a) => {
            lemma_ack_roundtrip(a, version, e);
            assert(ack_out(a, version).0 + e =~= ack_out(a, version).0);
        },
        PayloadView::PubRec(a) => {
            lemma_ack_roundtrip(a, version, e);
            assert(ack_out(a, version).0 + e =~= ack_out(a, version).0);
        },
        PayloadView::PubRel(a) => {
            lemma_ack_roundtrip(a, version, e);
            assert(ack_out(a, version).0 + e =~= ack_out(a, version).0);
        },
        PayloadView::PubComp(a) => {
            lemma_ack_roundtrip(a, version, e);
            assert(ack_out(a, version).0 + e =~= ack_out(a, version).0);
        },
        PayloadView::Subscribe(x) => {
            lemma_subscribe_roundtrip(x);
        },
        PayloadView::SubAck(x) => {
            lemma_suback_roundtrip(x);
        },
        PayloadView::Unsubscribe(x) => {
            lemma_unsubscribe_roundtrip(x);
        },
        PayloadView::UnsubAck(x) => {
            lemma_unsuback_roundtrip(x, version);
        },
        _ => {},
    }
}

/// Reading a frame whose header byte names packet type `t` (not AUTH),
/// whose remaining length is the length of `body`, and whose payload
/// decoder reads `body` as `pl`, gives that packet and the bytes after it.
#[verifier::spinoff_prover]
#[verifier::rlimit(40)]
proof fn lemma_frame_dec_value(
    t: PacketType,
    hb: u8,
    body: Seq<u8>,
    rest: Seq<u8>,
    pl: PayloadView,
    version: u8,
)
    requires
        body.len() <= max_remaining_length(),
        PacketType::spec_from_code(hb >> 4u8) == Some(t),
        t != PacketType::Auth,
        payload_dec(frame_header(t, hb, body.len()), body, version) matches Decoded::Value(q, _) && q == pl,
    ensures
        frame_dec(seq![hb] + rl_encode(body.len()) + body + rest, version) == Frame::Packet(
            PacketView { header: frame_header(t, hb, body.len()), payload: pl },
            rest,
        ),
{
    let n = body.len();
    let s = seq![hb] + rl_encode(n) + body + rest;
    lemma_remaining_length_roundtrip(n, body + rest);
    assert(s =~= seq![hb] + (rl_encode(n) + (body + rest)));
    assert(s[0] == hb);
    assert(s.skip(1) =~= rl_encode(n) + (body + rest));
    let u = body + rest;
    assert(rl_decode(s.skip(1)) == Decoded::Value(n, u));
    assert(u.len() >= n);
    assert(u.take(n as int) =~= body);
    assert(u.skip(n as int) =~= rest);
}

/// Encoding then decoding a packet gives the packet back, its header
/// carrying the length of the encoded payload, and leaves the bytes that
/// followed it.
pub proof fn lemma_packet_roundtrip(p: PacketView, version: u8, rest: Seq<u8>)
    requires
        packet_roundtrips(p, version),
        packet_out(p, version) is Some,
    ensures
        frame_dec(packet_out(p, version).unwrap() + rest, version) == Frame::Packet(
            PacketView {
                header: PacketHeader {
                    remaining_length: payload_out(p.payload, version).0.len() as usize,
                    ..p.header
                },
                payload: p.payload,
            },
            rest,
        ),
{
    let h = p.header;
    let body = payload_out(p.payload, version).0;
    let n = body.len();
    let hb = header_byte(h);
    let h2 = frame_header(h.packet_type, hb, n);
    assert(h2 == PacketHeader { remaining_length: n as usize, ..h }) by {
        lemma_packet_type_roundtrip(h.packet_type);
        lemma_header_bits(h.packet_type.spec_code(), h.dup, h.qos, h.retain);
    }
    assert(PacketType::spec_from_code(hb >> 4u8) == Some(h.packet_type)) by {
        lemma_packet_type_roundtrip(h.packet_type);
        lemma_header_bits(h.packet_type.spec_code(), h.dup, h.qos, h.retain);
    }
    assert(payload_dec(h2, body, version) matches Decoded::Value(q, _) && q == p.payload) by {
        lemma_payload_roundtrip(h2, p.payload, version);
    }
    lemma_frame_dec_value(h.packet_type, hb, body, rest, p.payload, version);
}

/// A payload as MQTT 3.1.1 reads it back: without properties or reason
/// codes, which that version does not put on the wire, and with topic
/// filters carrying the default subscription options.
pub open spec fn wire_payload_v4(p: PayloadView) -> PayloadView {
    match p {
        PayloadView::ConnAck(c) => PayloadView::ConnAck(ConnAckPacketView { properties: None, ..c }),
        PayloadView::Publish(x) => PayloadView::Publish(PublishPacketView { properties: None, ..x }),
        PayloadView::PubAck(a) => PayloadView::PubAck(AckView { packet_id: a.packet_id, reason_code: None, has_properties: false }),
        PayloadView::PubRec(a) => PayloadView::PubRec(AckView { packet_id: a.packet_id, reason_code: None, has_properties: false }),
        PayloadView::PubRel(a) => PayloadView::PubRel(AckView { packet_id: a.packet_id, reason_code: None, has_properties: false }),
        PayloadView::PubComp(a) => PayloadView::PubComp(AckView { packet_id: a.packet_id, reason_code: None, has_properties: false }),
        PayloadView::Subscribe(x) => PayloadView::Subscribe(SubscribePacketView {
            packet_id: x.packet_id,
            topic_filters: x.topic_filters.map_values(|f: TopicFilterView| wire_filter(f.topic, f.qos)),
            has_properties: false,
        }),
        PayloadView::SubAck(x) => PayloadView::SubAck(SubAckPacketView { has_properties: false, ..x }),
        PayloadView::Unsubscribe(x) => PayloadView::Unsubscribe(UnsubscribePacketView { has_properties: false, ..x }),
        PayloadView::UnsubAck(x) => PayloadView::UnsubAck(UnsubAckPacketView {
            packet_id: x.packet_id,
            reason_codes: Seq::empty(),
            has_properties: false,
        }),
        PayloadView::Disconnect(_) => PayloadView::Disconnect(DisconnectPacketView { reason_code: None, has_properties: false }),
        other => other,
    }
}

/// Whether payload `p` is of the packet type header `h` names, with a
/// packet ID on a PUBLISH exactly when the header's QoS is above 0.
pub open spec fn payload_fits_header(h: PacketHeader, p: PayloadView) -> bool {
    match p {
        PayloadView::Connect(_) => h.packet_type == PacketType::Connect,
        PayloadView::ConnAck(_) => h.packet_type == PacketType::ConnAck,
        PayloadView::Publish(x) => h.packet_type == PacketType::Publish && (x.packet_id is Some <==> h.qos > 0),
        PayloadView::PubAck(_) => h.packet_type == PacketType::PubAck,
        PayloadView::PubRec(_) => h.packet_type == PacketType::PubRec,
        PayloadView::PubRel(_) => h.packet_type == PacketType::PubRel,
        PayloadView::PubComp(_) => h.packet_type == PacketType::PubComp,
        PayloadView::Subscribe(_) => h.packet_type == PacketType::Subscribe,
        PayloadView::SubAck(_) => h.packet_type == PacketType::SubAck,
        PayloadView::Unsubscribe(_) => h.packet_type == PacketType::Unsubscribe,
        PayloadView::UnsubAck(_) => h.packet_type == PacketType::UnsubAck,
        PayloadView::PingReq => h.packet_type == PacketType::PingReq,
        PayloadView::PingResp => h.packet_type == PacketType::PingResp,
        PayloadView::Disconnect(_) => h.packet_type == PacketType::Disconnect,
        PayloadView::Auth(_) => h.packet_type == PacketType::Auth,
    }
}

/// Under MQTT 3.1.1, decoding an encoded packet other than CONNECT and AUTH
/// gives it back as that version carries it (see `wire_payload_v4`), with
/// the length of its payload in the header, and leaves the bytes after it:
/// its type, flags and QoS, packet ID, topic, payload bytes, topic filters
/// and their QoS, return codes, session-present flag and return code all
/// come back.
pub proof fn lemma_packet_roundtrip_v4(p: PacketView, rest: Seq<u8>)
    requires
        p.header.qos <= 3,
        payload_fits_header(p.header, p.payload),
        !(p.payload is Connect),
        !(p.payload is Auth),
        packet_out(p, 4) is Some,
    ensures
        frame_dec(packet_out(p, 4).unwrap() + rest, 4) == Frame::Packet(
            PacketView {
                header: PacketHeader {
                    remaining_length: payload_out(p.payload, 4).0.len() as usize,
                    ..p.header
                },
                payload: wire_payload_v4(p.payload),
            },
            rest,
        ),
{
    let q = PacketView { header: p.header, payload: wire_payload_v4(p.payload) };
    match p.payload {
        PayloadView::Subscribe(x) => {
            let fs2 = x.topic_filters.map_values(|f: TopicFilterView| wire_filter(f.topic, f.qos));
            assert(filters_parts(x.topic_filters) =~= filters_parts(fs2));
            let x2 = SubscribePacketView { packet_id: x.packet_id, topic_filters: fs2, has_properties: false };
            assert forall|i: int| 0 <= i < x2.topic_filters.len() implies #[trigger] x2.topic_filters[i] == wire_filter(
                x2.topic_filters[i].topic,
                x2.topic_filters[i].qos,
            ) by {}
            assert(subscribe_roundtrips(x2));
        },
        PayloadView::UnsubAck(x) => {
            assert(be16(x.packet_id) + Seq::<u8>::empty() =~= be16(x.packet_id));
        },
        _ => {},
    }
    assert(payload_out(q.payload, 4) == payload_out(p.payload, 4));
    assert(packet_out(q, 4) == packet_out(p, 4));
    assert(packet_roundtrips(q, 4));
    lemma_packet_roundtrip(q, 4, rest);
}

} // verus!
