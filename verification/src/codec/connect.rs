//! CONNECT and CONNACK payloads.

use vstd::prelude::*;
use vstd::utf8::{valid_utf8, decode_utf8};
use bytes::BytesMut;
use crate::buffer::{
    bytes_mut_contents, bytes_contents, buffer_limit, be16, be16_value, bm_len, bm_put_u8,
    bm_put_u16, bytes_to_vec,
};
use crate::error::{Error, Result};
use crate::text::{string_from_utf8, utf8_error_text};
use crate::types::properties::{
    ConnectProperties, ConnectPropertiesView, ConnAckProperties, ConnAckPropertiesView, opt_chars,
    opt_bytes,
};
use crate::types::connect::{
    ConnectPacket, ConnectPacketView, ConnAckPacket, ConnAckPacketView, ConnectReturnCode,
    opt_connect_props, opt_connack_props,
};
use crate::types::packet::{PacketPayload, PayloadView};
use super::spec::{
    Out, Decoded, DecodeFault, start, join, piece, string_field, bytes_field, map_dec, read_u8,
    read_u16, read_string, read_bytes, outcome, settled,
};
use super::fields::{
    flag_byte, join_all, lemma_join_all_step, lemma_join_all_extend, lemma_join_all_none,
    lemma_join_all_full,
};
use super::utils::{encode_string, encode_bytes, take_u8, take_u16, take_string, take_bytes, settle};
use super::properties::{
    connect_props_out, connect_props_dec, connack_props_out, connack_props_dec,
    encode_connect_properties, take_connect_properties, encode_connack_properties,
    take_connack_properties,
};

verus! {

// ---------------------------------------------------------------------------
// CONNECT
// ---------------------------------------------------------------------------

/// The connect flags byte: clean session (bit 1), will (bit 2) with its QoS
/// (bits 3-4) and retain (bit 5), password (bit 6), username (bit 7). The
/// will's QoS and retain are written only with the will flag.
pub open spec fn connect_flags(c: ConnectPacketView) -> u8 {
    (if c.clean_session { 0x02u8 } else { 0u8 }) | (if c.will_flag {
        0x04u8 | ((c.will_qos & 0x03u8) << 3u8) | (if c.will_retain { 0x20u8 } else { 0u8 })
    } else {
        0u8
    }) | (if c.password_flag { 0x40u8 } else { 0u8 }) | (if c.username_flag { 0x80u8 } else { 0u8 })
}

/// Each connect flag has its own bit: clean session is bit 1, the will
/// bit 2 with its QoS in bits 3-4 and its retain flag in bit 5 (all three
/// clear without a will), password bit 6 and username bit 7; the reserved
/// bit 0 is always clear.
pub proof fn lemma_connect_flag_fields(c: ConnectPacketView)
    requires
        c.will_qos <= 3,
    ensures
        ({
            let f = connect_flags(c);
            &&& f & 0x01u8 == 0
            &&& ((f & 0x02u8) != 0) == c.clean_session
            &&& ((f & 0x04u8) != 0) == c.will_flag
            &&& c.will_flag ==> (f >> 3u8) & 0x03u8 == c.will_qos
            &&& c.will_flag ==> ((f & 0x20u8) != 0) == c.will_retain
            &&& !c.will_flag ==> f & 0x38u8 == 0
            &&& ((f & 0x40u8) != 0) == c.password_flag
            &&& ((f & 0x80u8) != 0) == c.username_flag
        }),
{
    let cs = c.clean_session;
    let wf = c.will_flag;
    let wq = c.will_qos;
    let wr = c.will_retain;
    let pf = c.password_flag;
    let uf = c.username_flag;
    let f = connect_flags(c);
    assert(f == ((if cs { 0x02u8 } else { 0u8 }) | (if wf {
        0x04u8 | ((wq & 0x03u8) << 3u8) | (if wr { 0x20u8 } else { 0u8 })
    } else {
        0u8
    }) | (if pf { 0x40u8 } else { 0u8 }) | (if uf { 0x80u8 } else { 0u8 })));
    assert({
        let g = (if cs { 0x02u8 } else { 0u8 }) | (if wf {
            0x04u8 | ((wq & 0x03u8) << 3u8) | (if wr { 0x20u8 } else { 0u8 })
        } else {
            0u8
        }) | (if pf { 0x40u8 } else { 0u8 }) | (if uf { 0x80u8 } else { 0u8 });
        &&& g & 0x01u8 == 0
        &&& ((g & 0x02u8) != 0) == cs
        &&& ((g & 0x04u8) != 0) == wf
        &&& wf ==> (g >> 3u8) & 0x03u8 == wq
        &&& wf ==> ((g & 0x20u8) != 0) == wr
        &&& !wf ==> g & 0x38u8 == 0
        &&& ((g & 0x40u8) != 0) == pf
        &&& ((g & 0x80u8) != 0) == uf
    }) by (bit_vector)
        requires
            wq <= 3,
    ;
}

/// An optional string field: written when present.
pub open spec fn opt_string_out(v: Option<Seq<char>>) -> Out {
    match v {
        Some(s) => piece(string_field(s)),
        None => start(),
    }
}

/// An optional binary field: written when present.
pub open spec fn opt_bytes_out(v: Option<Seq<u8>>) -> Out {
    match v {
        Some(b) => piece(bytes_field(b)),
        None => start(),
    }
}

/// The parts of a CONNECT payload in order: protocol name; version, flags
/// and keep-alive; client ID; the will topic and message when the will flag
/// is set; the username and password when their flags are set; the property
/// block under MQTT 5.0 when there are properties.
#[verifier::opaque]
pub open spec fn connect_parts(c: ConnectPacketView, version: u8) -> Seq<Out> {
    seq![
        piece(string_field(c.protocol_name)),
        (seq![c.protocol_version, connect_flags(c)] + be16(c.keep_alive), true),
        piece(string_field(c.client_id)),
        if c.will_flag { opt_string_out(c.will_topic) } else { start() },
        if c.will_flag { opt_bytes_out(c.will_message) } else { start() },
        if c.username_flag { opt_string_out(c.username) } else { start() },
        if c.password_flag { opt_string_out(c.password) } else { start() },
        if version == 5 && c.properties is Some { connect_props_out(c.properties.unwrap()) } else { start() },
    ]
}

/// The parts of a CONNECT payload, one by one.
pub proof fn lemma_connect_parts(c: ConnectPacketView, version: u8)
    ensures
        ({
            let parts = connect_parts(c, version);
            &&& parts.len() == 8
            &&& parts[0] == (piece(string_field(c.protocol_name)))
            &&& parts[1] == ((seq![c.protocol_version, connect_flags(c)] + be16(c.keep_alive), true))
            &&& parts[2] == (piece(string_field(c.client_id)))
            &&& parts[3] == (if c.will_flag { opt_string_out(c.will_topic) } else { start() })
            &&& parts[4] == (if c.will_flag { opt_bytes_out(c.will_message) } else { start() })
            &&& parts[5] == (if c.username_flag { opt_string_out(c.username) } else { start() })
            &&& parts[6] == (if c.password_flag { opt_string_out(c.password) } else { start() })
            &&& parts[7] == (if version == 5 && c.properties is Some { connect_props_out(c.properties.unwrap()) } else { start() })
        }),
{
    reveal(connect_parts);
}

/// The encoded CONNECT payload.
pub open spec fn connect_out(c: ConnectPacketView, version: u8) -> Out {
    join_all(connect_parts(c, version))
}

/// An optional string read when `flag` is set.
pub open spec fn opt_string_dec(flag: bool, s: Seq<u8>) -> Decoded<Option<Seq<char>>> {
    if flag {
        map_dec(read_string(s), |v: Seq<char>| Some(v))
    } else {
        Decoded::Value(None, s)
    }
}

/// Optional binary data read when `flag` is set.
pub open spec fn opt_bytes_dec(flag: bool, s: Seq<u8>) -> Decoded<Option<Seq<u8>>> {
    if flag {
        map_dec(read_bytes(s), |v: Seq<u8>| Some(v))
    } else {
        Decoded::Value(None, s)
    }
}

/// The password, read as binary data that must be valid UTF-8, when `flag`
/// is set.
pub open spec fn password_dec(flag: bool, s: Seq<u8>) -> Decoded<Option<Seq<char>>> {
    if flag {
        match read_bytes(s) {
            Decoded::Value(b, r) => if valid_utf8(b) {
                Decoded::Value(Some(decode_utf8(b)), r)
            } else {
                Decoded::Invalid(r)
            },
            Decoded::Invalid(r) => Decoded::Invalid(r),
            Decoded::Truncated => Decoded::Truncated,
        }
    } else {
        Decoded::Value(None, s)
    }
}

/// The CONNECT property block, read under MQTT 5.0 only.
pub open spec fn opt_connect_props_dec(version: u8, s: Seq<u8>) -> Decoded<Option<ConnectPropertiesView>> {
    if version == 5 {
        map_dec(connect_props_dec(s), |p: ConnectPropertiesView| Some(p))
    } else {
        Decoded::Value(None, s)
    }
}

/// The CONNECT packet whose fixed fields are `name`, `ver`, `flags`,
/// `keep_alive` and `client_id`, with the optional fields given.
pub open spec fn connect_packet_view(
    name: Seq<char>,
    ver: u8,
    flags: u8,
    keep_alive: u16,
    client_id: Seq<char>,
    will_topic: Option<Seq<char>>,
    will_message: Option<Seq<u8>>,
    username: Option<Seq<char>>,
    password: Option<Seq<char>>,
    properties: Option<ConnectPropertiesView>,
) -> ConnectPacketView {
    ConnectPacketView {
        protocol_name: name,
        protocol_version: ver,
        clean_session: (flags & 0x02u8) != 0,
        will_flag: (flags & 0x04u8) != 0,
        will_qos: (flags & 0x18u8) >> 3u8,
        will_retain: (flags & 0x20u8) != 0,
        password_flag: (flags & 0x40u8) != 0,
        username_flag: (flags & 0x80u8) != 0,
        keep_alive,
        client_id,
        will_topic,
        will_message,
        username,
        password,
        properties,
    }
}

/// Reading the optional fields of a CONNECT payload, after the client ID.
pub open spec fn connect_tail_dec(
    name: Seq<char>,
    ver: u8,
    flags: u8,
    keep_alive: u16,
    client_id: Seq<char>,
    s: Seq<u8>,
    version: u8,
) -> Decoded<ConnectPacketView> {
    match opt_string_dec((flags & 0x04u8) != 0, s) {
        Decoded::Value(wt, s1) => match opt_bytes_dec((flags & 0x04u8) != 0, s1) {
            Decoded::Value(wm, s2) => match opt_string_dec((flags & 0x80u8) != 0, s2) {
                Decoded::Value(un, s3) => match password_dec((flags & 0x40u8) != 0, s3) {
                    Decoded::Value(pw, s4) => match opt_connect_props_dec(version, s4) {
                        Decoded::Value(props, s5) => Decoded::Value(
                            connect_packet_view(name, ver, flags, keep_alive, client_id, wt, wm, un, pw, props),
                            s5,
                        ),
                        Decoded::Invalid(r) => Decoded::Invalid(r),
                        Decoded::Truncated => Decoded::Truncated,
                    },
                    Decoded::Invalid(r) => Decoded::Invalid(r),
                    Decoded::Truncated => Decoded::Truncated,
                },
                Decoded::Invalid(r) => Decoded::Invalid(r),
                Decoded::Truncated => Decoded::Truncated,
            },
            Decoded::Invalid(r) => Decoded::Invalid(r),
            Decoded::Truncated => Decoded::Truncated,
        },
        Decoded::Invalid(r) => Decoded::Invalid(r),
        Decoded::Truncated => Decoded::Truncated,
    }
}

/// Reading a CONNECT payload: protocol name, version byte, flags byte,
/// keep-alive, client ID, then what the flags (and, for MQTT 5.0, the
/// codec's version) call for.
pub open spec fn connect_dec(s: Seq<u8>, version: u8) -> Decoded<ConnectPacketView> {
    match read_string(s) {
        Decoded::Value(name, s1) => if s1.len() < 4 {
            Decoded::Truncated
        } else {
            match read_string(s1.skip(4)) {
                Decoded::Value(client_id, s2) => connect_tail_dec(
                    name,
                    s1[0],
                    s1[1],
                    be16_value(s1[2], s1[3]),
                    client_id,
                    s2,
                    version,
                ),
                Decoded::Invalid(r) => Decoded::Invalid(r),
                Decoded::Truncated => Decoded::Truncated,
            }
        },
        Decoded::Invalid(r) => Decoded::Invalid(r),
        Decoded::Truncated => Decoded::Truncated,
    }
}

/// The CONNECT payload as a packet payload.
pub open spec fn connect_payload_dec(s: Seq<u8>, version: u8) -> Decoded<PayloadView> {
    map_dec(connect_dec(s, version), |c: ConnectPacketView| PayloadView::Connect(c))
}

/// Appends an optional string when `flag` is set and it is present.
fn put_opt_string(buf: &mut BytesMut, flag: bool, v: &Option<String>) -> (r: Result<()>)
    requires
        bytes_mut_contents(*old(buf)).len() + (if flag { opt_string_out(opt_chars(*v)) } else { start() }).0.len()
            <= buffer_limit(),
    ensures
        bytes_mut_contents(*final(buf)) == bytes_mut_contents(*old(buf)) + (if flag {
            opt_string_out(opt_chars(*v))
        } else {
            start()
        }).0,
        r is Ok <==> (if flag { opt_string_out(opt_chars(*v)) } else { start() }).1,
        r is Err ==> r matches Err(Error::InvalidPacket(_)),
{
    if flag {
        if let Some(x) = v {
            return encode_string(x.as_str(), buf);
        }
    }
    assert(bytes_mut_contents(*buf) =~= bytes_mut_contents(*buf) + Seq::<u8>::empty());
    Ok(())
}

/// Encodes a CONNECT payload. The will topic and message are written only
/// with the will flag, the username and password only with their flags, and
/// the properties only under MQTT 5.0. Fails when a string or binary field is
/// too long, after the fields before it.
#[verifier::rlimit(30)]
pub fn encode_connect(connect: &ConnectPacket, buf: &mut BytesMut, protocol_version: u8) -> (r: Result<()>)
    requires
        bytes_mut_contents(*old(buf)).len() + connect_out(connect@, protocol_version).0.len()
            <= buffer_limit(),
    ensures
        bytes_mut_contents(*final(buf)) == bytes_mut_contents(*old(buf)) + connect_out(
            connect@,
            protocol_version,
        ).0,
        r is Ok <==> connect_out(connect@, protocol_version).1,
        r is Err ==> r matches Err(Error::InvalidPacket(_)),
{
    let ghost parts = connect_parts(connect@, protocol_version);
    let ghost base = bytes_mut_contents(*buf);
    proof {
        lemma_connect_parts(connect@, protocol_version);
        lemma_join_all_none(parts);
        assert(base =~= base + join_all(parts.take(0)).0);
        lemma_join_all_step(parts, 0);
    }
    let ghost before = bytes_mut_contents(*buf);
    let r = encode_string(connect.protocol_name.as_str(), buf);
    proof {
        lemma_join_all_extend(parts, 0, base, before, bytes_mut_contents(*buf));
    }
    if r.is_err() {
        return r;
    }
    proof {
        lemma_join_all_step(parts, 1);
    }
    let ghost before = bytes_mut_contents(*buf);
    let flags: u8 = (if connect.clean_session { 0x02u8 } else { 0u8 }) | (if connect.will_flag {
        0x04u8 | ((connect.will_qos & 0x03u8) << 3u8) | (if connect.will_retain { 0x20u8 } else { 0u8 })
    } else {
        0u8
    }) | (if connect.password_flag { 0x40u8 } else { 0u8 }) | (if connect.username_flag {
        0x80u8
    } else {
        0u8
    });
    bm_put_u8(buf, connect.protocol_version);
    bm_put_u8(buf, flags);
    bm_put_u16(buf, connect.keep_alive);
    proof {
        assert(bytes_mut_contents(*buf) =~= before + parts[1].0);
        lemma_join_all_extend(parts, 1, base, before, bytes_mut_contents(*buf));
        lemma_join_all_step(parts, 2);
    }
    let ghost before = bytes_mut_contents(*buf);
    let r = encode_string(connect.client_id.as_str(), buf);
    proof {
        lemma_join_all_extend(parts, 2, base, before, bytes_mut_contents(*buf));
    }
    if r.is_err() {
        return r;
    }
    proof {
        lemma_join_all_step(parts, 3);
    }
    let ghost before = bytes_mut_contents(*buf);
    let r = put_opt_string(buf, connect.will_flag, &connect.will_topic);
    proof {
        lemma_join_all_extend(parts, 3, base, before, bytes_mut_contents(*buf));
    }
    if r.is_err() {
        return r;
    }
    proof {
        lemma_join_all_step(parts, 4);
    }
    let ghost before = bytes_mut_contents(*buf);
    if connect.will_flag {
        if let Some(m) = &connect.will_message {
            let r = encode_bytes(crate::buffer::bytes_as_slice(m), buf);
            proof {
                lemma_join_all_extend(parts, 4, base, before, bytes_mut_contents(*buf));
            }
            if r.is_err() {
                return r;
            }
        }
    }
    proof {
        assert(bytes_mut_contents(*buf) =~= before + parts[4].0);
        lemma_join_all_extend(parts, 4, base, before, bytes_mut_contents(*buf));
        lemma_join_all_step(parts, 5);
    }
    let ghost before = bytes_mut_contents(*buf);
    let r = put_opt_string(buf, connect.username_flag, &connect.username);
    proof {
        lemma_join_all_extend(parts, 5, base, before, bytes_mut_contents(*buf));
    }
    if r.is_err() {
        return r;
    }
    proof {
        lemma_join_all_step(parts, 6);
    }
    let ghost before = bytes_mut_contents(*buf);
    let r = put_opt_string(buf, connect.password_flag, &connect.password);
    proof {
        lemma_join_all_extend(parts, 6, base, before, bytes_mut_contents(*buf));
    }
    if r.is_err() {
        return r;
    }
    proof {
        lemma_join_all_step(parts, 7);
    }
    let ghost before = bytes_mut_contents(*buf);
    if protocol_version == 5 {
        if let Some(p) = &connect.properties {
            let r = encode_connect_properties(p, buf);
            proof {
                lemma_join_all_extend(parts, 7, base, before, bytes_mut_contents(*buf));
                lemma_join_all_full(parts);
            }
            return r;
        }
    }
    proof {
        assert(bytes_mut_contents(*buf) =~= before + parts[7].0);
        lemma_join_all_extend(parts, 7, base, before, bytes_mut_contents(*buf));
        lemma_join_all_full(parts);
    }
    Ok(())
}

/// Reads the password: binary data that must be valid UTF-8.
fn take_password(buf: &mut BytesMut, flag: bool) -> (r: std::result::Result<Option<String>, DecodeFault>)
    ensures
        outcome(password_dec(flag, bytes_mut_contents(*old(buf))), r, |o: Option<String>| opt_chars(o), bytes_mut_contents(*final(buf))),
{
    if !flag {
        return Ok(None);
    }
    let data = match take_bytes(buf) {
        Ok(d) => d,
        Err(e) => return Err(e),
    };
    match string_from_utf8(bytes_to_vec(&data)) {
        Ok(s) => Ok(Some(s)),
        Err(e) => Err(DecodeFault::Malformed(Error::InvalidPacket(utf8_error_text("Invalid UTF-8 in password: ", &e)))),
    }
}

/// Reads a CONNECT payload, reporting a payload that ends where a
/// fixed-size field is due as `Truncated` instead of failing on it.
#[verifier::rlimit(30)]
pub fn take_connect(buf: &mut BytesMut, protocol_version: u8) -> (r: std::result::Result<ConnectPacket, DecodeFault>)
    ensures
        outcome(connect_dec(bytes_mut_contents(*old(buf)), protocol_version), r, |c: ConnectPacket| c@, bytes_mut_contents(*final(buf))),
{
    let ghost s0 = bytes_mut_contents(*buf);
    let protocol_name = match take_string(buf) {
        Ok(s) => s,
        Err(e) => return Err(e),
    };
    if bm_len(buf) < 4 {
        return Err(DecodeFault::Truncated);
    }
    let ghost s1 = bytes_mut_contents(*buf);
    let version = match take_u8(buf) {
        Ok(v) => v,
        Err(e) => return Err(e),
    };
    let flags = match take_u8(buf) {
        Ok(v) => v,
        Err(e) => return Err(e),
    };
    let keep_alive = match take_u16(buf) {
        Ok(v) => v,
        Err(e) => return Err(e),
    };
    proof {
        assert(bytes_mut_contents(*buf) =~= s1.skip(4));
    }
    let client_id = match take_string(buf) {
        Ok(s) => s,
        Err(e) => return Err(e),
    };
    let will_flag = (flags & 0x04u8) != 0;
    let will_topic = if will_flag {
        match take_string(buf) {
            Ok(s) => Some(s),
            Err(e) => return Err(e),
        }
    } else {
        None
    };
    let will_message = if will_flag {
        match take_bytes(buf) {
            Ok(b) => Some(b),
            Err(e) => return Err(e),
        }
    } else {
        None
    };
    let username = if (flags & 0x80u8) != 0 {
        match take_string(buf) {
            Ok(s) => Some(s),
            Err(e) => return Err(e),
        }
    } else {
        None
    };
    let password = match take_password(buf, (flags & 0x40u8) != 0) {
        Ok(p) => p,
        Err(e) => return Err(e),
    };
    let properties = if protocol_version == 5 {
        match take_connect_properties(buf) {
            Ok(p) => Some(p),
            Err(e) => return Err(e),
        }
    } else {
        None
    };
    Ok(ConnectPacket {
        protocol_name,
        protocol_version: version,
        clean_session: (flags & 0x02u8) != 0,
        will_flag,
        will_qos: (flags & 0x18u8) >> 3u8,
        will_retain: (flags & 0x20u8) != 0,
        password_flag: (flags & 0x40u8) != 0,
        username_flag: (flags & 0x80u8) != 0,
        keep_alive,
        client_id,
        will_topic,
        will_message,
        username,
        password,
        properties,
    })
}

/// Decodes a CONNECT payload as written by `encode_connect`; malformed
/// strings, binary fields, passwords or properties are reported.
pub fn decode_connect(buf: &mut BytesMut, protocol_version: u8) -> (r: Result<PacketPayload>)
    ensures
        settled(connect_payload_dec(bytes_mut_contents(*old(buf)), protocol_version), r, |p: PacketPayload| p@, bytes_mut_contents(*final(buf))),
{
    match take_connect(buf, protocol_version) {
        Ok(c) => Ok(PacketPayload::Connect(c)),
        Err(e) => settle(Err(e)),
    }
}

// ---------------------------------------------------------------------------
// CONNACK
// ---------------------------------------------------------------------------

/// The encoded CONNACK payload: the session-present flag byte, the return
/// code, then the property block under MQTT 5.0 when there are properties.
pub open spec fn connack_out(c: ConnAckPacketView, version: u8) -> Out {
    join(
        (seq![flag_byte(c.session_present), c.return_code.spec_code()], true),
        if version == 5 && c.properties is Some { connack_props_out(c.properties.unwrap()) } else { start() },
    )
}

/// On the wire a CONNACK under MQTT 3.1 and 3.1.1 is two bytes: 1 or 0 for
/// session present, then the return code's number.
pub proof fn lemma_connack_bytes(c: ConnAckPacketView, version: u8)
    ensures
        !(version == 5 && c.properties is Some) ==> connack_out(c, version) == (seq![
            if c.session_present { 1u8 } else { 0u8 },
            c.return_code.spec_code(),
        ], true),
{
    if !(version == 5 && c.properties is Some) {
        assert(seq![flag_byte(c.session_present), c.return_code.spec_code()] + Seq::<u8>::empty() =~= seq![
            if c.session_present { 1u8 } else { 0u8 },
            c.return_code.spec_code(),
        ]);
    }
}

/// Reading a CONNACK payload: flags byte (bit 0 is session present), a
/// known return code, then the property block under MQTT 5.0.
pub open spec fn connack_dec(s: Seq<u8>, version: u8) -> Decoded<ConnAckPacketView> {
    if s.len() < 2 {
        Decoded::Truncated
    } else {
        match ConnectReturnCode::spec_from_code(s[1]) {
            None => Decoded::Invalid(s.skip(2)),
            Some(code) => if version == 5 {
                map_dec(
                    connack_props_dec(s.skip(2)),
                    |p: ConnAckPropertiesView|
                        ConnAckPacketView {
                            session_present: (s[0] & 0x01u8) != 0,
                            return_code: code,
                            properties: Some(p),
                        },
                )
            } else {
                Decoded::Value(
                    ConnAckPacketView {
                        session_present: (s[0] & 0x01u8) != 0,
                        return_code: code,
                        properties: None,
                    },
                    s.skip(2),
                )
            },
        }
    }
}

/// The CONNACK payload as a packet payload.
pub open spec fn connack_payload_dec(s: Seq<u8>, version: u8) -> Decoded<PayloadView> {
    map_dec(connack_dec(s, version), |c: ConnAckPacketView| PayloadView::ConnAck(c))
}

/// Encodes a CONNACK payload.
pub fn encode_connack(connack: &ConnAckPacket, buf: &mut BytesMut, protocol_version: u8) -> (r: Result<()>)
    requires
        bytes_mut_contents(*old(buf)).len() + connack_out(connack@, protocol_version).0.len()
            <= buffer_limit(),
    ensures
        bytes_mut_contents(*final(buf)) == bytes_mut_contents(*old(buf)) + connack_out(
            connack@,
            protocol_version,
        ).0,
        r is Ok <==> connack_out(connack@, protocol_version).1,
        r is Err ==> r matches Err(Error::InvalidPacket(_)),
{
    let ghost b0 = bytes_mut_contents(*buf);
    bm_put_u8(buf, if connack.session_present { 1 } else { 0 });
    bm_put_u8(buf, connack.return_code.to_u8());
    let ghost b1 = bytes_mut_contents(*buf);
    if protocol_version == 5 {
        if let Some(p) = &connack.properties {
            let r = encode_connack_properties(p, buf);
            assert(bytes_mut_contents(*buf) =~= b0 + connack_out(connack@, protocol_version).0);
            return r;
        }
    }
    assert(bytes_mut_contents(*buf) =~= b0 + connack_out(connack@, protocol_version).0);
    Ok(())
}

/// Reads a CONNACK payload, reporting a payload that ends where a
/// fixed-size field is due as `Truncated` instead of failing on it.
pub fn take_connack(buf: &mut BytesMut, protocol_version: u8) -> (r: std::result::Result<ConnAckPacket, DecodeFault>)
    ensures
        outcome(connack_dec(bytes_mut_contents(*old(buf)), protocol_version), r, |c: ConnAckPacket| c@, bytes_mut_contents(*final(buf))),
{
    let ghost s0 = bytes_mut_contents(*buf);
    if bm_len(buf) < 2 {
        return Err(DecodeFault::Truncated);
    }
    let flags = match take_u8(buf) {
        Ok(v) => v,
        Err(e) => return Err(e),
    };
    let code = match take_u8(buf) {
        Ok(v) => v,
        Err(e) => return Err(e),
    };
    proof {
        assert(bytes_mut_contents(*buf) =~= s0.skip(2));
    }
    let return_code = match ConnectReturnCode::from_u8(code) {
        Some(c) => c,
        None => {
            return Err(DecodeFault::Malformed(Error::InvalidPacket(crate::text::owned("Invalid connect return code"))));
        },
    };
    let properties = if protocol_version == 5 {
        match take_connack_properties(buf) {
            Ok(p) => Some(p),
            Err(e) => return Err(e),
        }
    } else {
        None
    };
    Ok(ConnAckPacket { session_present: (flags & 0x01u8) != 0, return_code, properties })
}

/// Decodes a CONNACK payload; an unknown return code is reported.
pub fn decode_connack(buf: &mut BytesMut, protocol_version: u8) -> (r: Result<PacketPayload>)
    ensures
        settled(connack_payload_dec(bytes_mut_contents(*old(buf)), protocol_version), r, |p: PacketPayload| p@, bytes_mut_contents(*final(buf))),
{
    match take_connack(buf, protocol_version) {
        Ok(c) => Ok(PacketPayload::ConnAck(c)),
        Err(e) => settle(Err(e)),
    }
}

} // verus!
