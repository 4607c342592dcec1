//! The packets a client sends and how it answers or checks those it
//! receives. The connection itself (socket, timeouts) runs outside.

use vstd::prelude::*;
use vstd::slice::slice_to_vec;
use std::time::Duration;
use bytes::Bytes;
use crate::buffer::{bytes_contents, bytes_from_vec};
use crate::error::{Error, Result, join_text};
use crate::protocol::connect::ConnectOptions;
use crate::protocol::packet_id::{PacketIdCounter, next_id_after};
use crate::protocol::publish::PublishOptions;
use crate::protocol::qos::QoS;
use crate::text::owned;
use crate::time::{secs_duration, whole_secs, duration_as_secs};
use crate::types::builders::{
    plain_header, plain_ack, header, puback_packet, pubrec_packet, pubrel_packet, pubcomp_packet,
    pingresp_packet,
};
use crate::types::connect::{ConnectPacket, ConnectPacketView, ConnAckPacket, ConnAckPacketView, ConnectReturnCode};
use crate::types::message::{Message, MessageView};
use crate::types::packet::{PacketType, PacketHeader, Packet, PacketView, PacketPayload, PayloadView};
use crate::types::properties::{opt_chars, opt_bytes};
use crate::types::publish::{PublishPacket, PublishPacketView, AckView};
use crate::types::subscribe::{
    TopicFilter, TopicFilterView, SubscribePacket, SubscribePacketView, UnsubscribePacket,
    UnsubscribePacketView,
};
use super::state::ConnectionState;

verus! {

/// The protocol name sent for a protocol level the client supports.
pub open spec fn protocol_name_for(version: u8) -> Option<Seq<char>> {
    if version == 3 {
        Some("MQIsdp"@)
    } else if version == 4 || version == 5 {
        Some("MQTT"@)
    } else {
        None
    }
}

/// The will message as bytes, if any.
pub open spec fn opt_vec_bytes(o: Option<Vec<u8>>) -> Option<Seq<u8>> {
    match o {
        Some(v) => Some(v@),
        None => None,
    }
}

/// The CONNECT a client sends with `options` under protocol `version`
/// with protocol name `name` and keep-alive `keep_alive`: the flags follow
/// from which options are set, and no properties are sent.
pub open spec fn connect_request(name: Seq<char>, version: u8, o: ConnectOptions, keep_alive: u16) -> ConnectPacketView {
    ConnectPacketView {
        protocol_name: name,
        protocol_version: version,
        clean_session: o.clean_session,
        will_flag: o.will_topic is Some,
        will_qos: o.will_qos.spec_level(),
        will_retain: o.will_retain,
        password_flag: o.password is Some,
        username_flag: o.username is Some,
        keep_alive,
        client_id: o.client_id@,
        will_topic: opt_chars(o.will_topic),
        will_message: opt_vec_bytes(o.will_message),
        username: opt_chars(o.username),
        password: opt_chars(o.password),
        properties: None,
    }
}

/// Protocol level 3 is announced as "MQIsdp", levels 4 and 5 as "MQTT";
/// the client supports no other level.
pub proof fn lemma_protocol_names(version: u8)
    ensures
        version == 3 ==> protocol_name_for(version) == Some("MQIsdp"@),
        (version == 4 || version == 5) ==> protocol_name_for(version) == Some("MQTT"@),
        (version < 3 || version > 5) ==> protocol_name_for(version) is None,
{
}

/// A CONNECT request sets each flag exactly when the matching field is
/// sent, and carries the client's ID, credentials and will as given.
pub proof fn lemma_connect_request_fields(name: Seq<char>, version: u8, o: ConnectOptions, keep_alive: u16)
    ensures
        ({
            let c = connect_request(name, version, o, keep_alive);
            &&& c.protocol_name == name && c.protocol_version == version && c.keep_alive == keep_alive
            &&& c.client_id == o.client_id@ && c.clean_session == o.clean_session
            &&& (c.username_flag <==> c.username is Some) && c.username == opt_chars(o.username)
            &&& (c.password_flag <==> c.password is Some) && c.password == opt_chars(o.password)
            &&& (c.will_flag <==> o.will_topic is Some) && c.will_topic == opt_chars(o.will_topic)
            &&& c.will_qos == o.will_qos.spec_level() && c.will_retain == o.will_retain
            &&& c.will_message == opt_vec_bytes(o.will_message)
            &&& c.properties is None
        }),
{
}

/// The CONNECT packet for `options` under protocol `protocol_version`, with
/// the keep-alive interval's whole seconds (modulo 65536). A protocol level
/// other than 3, 4 or 5 is refused.
pub fn connect_packet(protocol_version: u8, keep_alive: &Duration, options: ConnectOptions) -> (r: Result<Packet>)
    ensures
        protocol_name_for(protocol_version) is None ==> (r matches Err(Error::UnsupportedVersion(v)) && v
            == protocol_version),
        protocol_name_for(protocol_version) matches Some(name) ==> (r matches Ok(p) && p@.header == plain_header(
            PacketType::Connect,
            0,
        ) && (p@.payload matches PayloadView::Connect(c) && c == connect_request(
            name,
            protocol_version,
            options,
            c.keep_alive,
        ) && c.keep_alive == whole_secs(*keep_alive) as u16 && (forall|s: u64| secs_duration(s) == *keep_alive
            ==> c.keep_alive == s as u16))),
{
    let protocol_name = if protocol_version == 3 {
        owned("MQIsdp")
    } else if protocol_version == 4 || protocol_version == 5 {
        owned("MQTT")
    } else {
        return Err(Error::UnsupportedVersion(protocol_version));
    };
    let secs = duration_as_secs(keep_alive);
    let ka = secs as u16;
    let will_message = match options.will_message {
        Some(v) => Some(bytes_from_vec(v)),
        None => None,
    };
    let connect = ConnectPacket {
        protocol_name,
        protocol_version,
        clean_session: options.clean_session,
        will_flag: options.will_topic.is_some(),
        will_qos: options.will_qos.to_u8(),
        will_retain: options.will_retain,
        password_flag: options.password.is_some(),
        username_flag: options.username.is_some(),
        keep_alive: ka,
        client_id: options.client_id,
        will_topic: options.will_topic,
        will_message,
        username: options.username,
        password: options.password,
        properties: None,
    };
    Ok(Packet { header: header(PacketType::Connect, 0), payload: PacketPayload::Connect(connect) })
}

/// The CONNACK that answers a CONNECT; any other packet is a protocol
/// error.
pub fn expect_connack(packet: Packet) -> (r: Result<ConnAckPacket>)
    ensures
        packet@.payload matches PayloadView::ConnAck(c) ==> (r matches Ok(x) && x@ == c),
        !(packet@.payload is ConnAck) ==> (r matches Err(Error::Protocol(m)) && m@ == "Expected CONNACK packet"@),
{
    match packet.payload {
        PacketPayload::ConnAck(c) => Ok(c),
        _ => Err(Error::Protocol(owned("Expected CONNACK packet"))),
    }
}

/// A CONNACK other than `Accepted` refuses the connection.
pub fn check_connack(connack: &ConnAckPacket) -> (r: Result<()>)
    ensures
        connack.return_code == ConnectReturnCode::Accepted ==> r is Ok,
        connack.return_code != ConnectReturnCode::Accepted ==> (r matches Err(Error::Connection(m)) && m@
            == "Connection rejected: "@ + connack.return_code.spec_name()),
{
    if connack.is_success() {
        Ok(())
    } else {
        Err(Error::Connection(join_text("Connection rejected: ", connack.return_code.name())))
    }
}

/// A client may connect only from the disconnected state.
pub fn ensure_disconnected(state: &ConnectionState) -> (r: Result<()>)
    ensures
        *state == ConnectionState::Disconnected ==> r is Ok,
        *state != ConnectionState::Disconnected ==> (r matches Err(Error::Client(m)) && m@
            == "Client is not in disconnected state"@),
{
    if state.is_disconnected() {
        Ok(())
    } else {
        Err(Error::Client(owned("Client is not in disconnected state")))
    }
}

/// Subscribing, unsubscribing, publishing and receiving need a connected
/// client.
pub fn ensure_connected(state: &ConnectionState) -> (r: Result<()>)
    ensures
        *state == ConnectionState::Connected ==> r is Ok,
        *state != ConnectionState::Connected ==> (r matches Err(Error::Client(m)) && m@ == "Client is not connected"@),
{
    if state.is_connected() {
        Ok(())
    } else {
        Err(Error::Client(owned("Client is not connected")))
    }
}

/// The SUBSCRIBE for one topic at `qos` with the default subscription
/// options; SUBSCRIBE travels at QoS 1.
pub fn subscribe_packet(topic: &str, qos: QoS, packet_id: u16) -> (r: Packet)
    ensures
        r@ == (PacketView {
            header: plain_header(PacketType::Subscribe, 1),
            payload: PayloadView::Subscribe(SubscribePacketView {
                packet_id,
                topic_filters: seq![TopicFilterView {
                    topic: topic@,
                    qos: qos.spec_level(),
                    no_local: false,
                    retain_as_published: false,
                    retain_handling: 0,
                }],
                has_properties: false,
            }),
        }),
{
    let f = TopicFilter {
        topic: topic.to_owned(),
        qos: qos.to_u8(),
        no_local: false,
        retain_as_published: false,
        retain_handling: 0,
    };
    let topic_filters = vec![f];
    let r = Packet {
        header: header(PacketType::Subscribe, 1),
        payload: PacketPayload::Subscribe(SubscribePacket { packet_id, topic_filters, properties: None }),
    };
    assert(r@.payload->Subscribe_0.topic_filters =~= seq![f@]);
    r
}

/// The SUBACK that answers a SUBSCRIBE; any other packet is a protocol
/// error.
pub fn expect_suback(packet: &Packet) -> (r: Result<()>)
    ensures
        packet@.payload is SubAck ==> r is Ok,
        !(packet@.payload is SubAck) ==> (r matches Err(Error::Protocol(m)) && m@ == "Expected SUBACK packet"@),
{
    match &packet.payload {
        PacketPayload::SubAck(_) => Ok(()),
        _ => Err(Error::Protocol(owned("Expected SUBACK packet"))),
    }
}

/// The UNSUBSCRIBE for one topic; UNSUBSCRIBE travels at QoS 1.
pub fn unsubscribe_packet(topic: &str, packet_id: u16) -> (r: Packet)
    ensures
        r@ == (PacketView {
            header: plain_header(PacketType::Unsubscribe, 1),
            payload: PayloadView::Unsubscribe(UnsubscribePacketView {
                packet_id,
                topic_filters: seq![topic@],
                has_properties: false,
            }),
        }),
{
    let t = topic.to_owned();
    let topic_filters = vec![t];
    let r = Packet {
        header: header(PacketType::Unsubscribe, 1),
        payload: PacketPayload::Unsubscribe(UnsubscribePacket { packet_id, topic_filters, properties: None }),
    };
    assert(r@.payload->Unsubscribe_0.topic_filters =~= seq![topic@]);
    r
}

/// The UNSUBACK that answers an UNSUBSCRIBE; any other packet is a protocol
/// error.
pub fn expect_unsuback(packet: &Packet) -> (r: Result<()>)
    ensures
        packet@.payload is UnsubAck ==> r is Ok,
        !(packet@.payload is UnsubAck) ==> (r matches Err(Error::Protocol(m)) && m@ == "Expected UNSUBACK packet"@),
{
    match &packet.payload {
        PacketPayload::UnsubAck(_) => Ok(()),
        _ => Err(Error::Protocol(owned("Expected UNSUBACK packet"))),
    }
}

/// Gives a publication that needs acknowledging (QoS above 0) the next
/// packet ID, and takes any ID away from one that does not.
pub fn assign_packet_id(options: PublishOptions, ids: &mut PacketIdCounter) -> (r: PublishOptions)
    ensures
        options.qos != QoS::AtMostOnce ==> r == (PublishOptions { packet_id: Some(old(ids).next), ..options })
            && final(ids).next == next_id_after(old(ids).next),
        options.qos == QoS::AtMostOnce ==> r == (PublishOptions { packet_id: None, ..options }) && final(ids).next
            == old(ids).next,
{
    let packet_id = if options.qos != QoS::AtMostOnce {
        Some(ids.next_packet_id())
    } else {
        None
    };
    PublishOptions { packet_id, ..options }
}

/// The PUBLISH for `options`: its flags, QoS and packet ID go in as given.
pub fn publish_packet(options: PublishOptions) -> (r: Packet)
    ensures
        r@ == (PacketView {
            header: PacketHeader {
                packet_type: PacketType::Publish,
                dup: options.dup,
                qos: options.qos.spec_level(),
                retain: options.retain,
                remaining_length: 0,
            },
            payload: PayloadView::Publish(PublishPacketView {
                topic_name: options.topic@,
                packet_id: options.packet_id,
                payload: options.payload@,
                properties: None,
            }),
        }),
{
    let qos = options.qos.to_u8();
    let publish = PublishPacket {
        topic_name: options.topic,
        packet_id: options.packet_id,
        payload: bytes_from_vec(options.payload),
        properties: None,
    };
    Packet {
        header: PacketHeader { packet_type: PacketType::Publish, dup: options.dup, qos, retain: options.retain, remaining_length: 0 },
        payload: PacketPayload::Publish(publish),
    }
}

/// The packet ID a publication is acknowledged under: its own, or else the
/// next from the connection's counter.
pub fn ack_packet_id(packet_id: Option<u16>, ids: &mut PacketIdCounter) -> (r: u16)
    ensures
        packet_id matches Some(id) ==> r == id && final(ids).next == old(ids).next,
        packet_id is None ==> r == old(ids).next && final(ids).next == (if old(ids).next == u16::MAX {
            0
        } else {
            (old(ids).next + 1) as u16
        }),
{
    match packet_id {
        Some(id) => id,
        None => ids.next_packet_id_wrapping(),
    }
}

/// Checks the PUBACK for a QoS 1 publication with `packet_id`.
pub fn check_puback(packet: &Packet, packet_id: u16) -> (r: Result<()>)
    ensures
        (packet@.payload matches PayloadView::PubAck(a) && a.packet_id == packet_id) ==> r is Ok,
        (packet@.payload matches PayloadView::PubAck(a) && a.packet_id != packet_id) ==> (r matches Err(
            Error::Protocol(m),
        ) && m@ == "Mismatched PUBACK packet ID"@),
        !(packet@.payload is PubAck) ==> (r matches Err(Error::Protocol(m)) && m@ == "Expected PUBACK packet"@),
{
    match &packet.payload {
        PacketPayload::PubAck(a) => {
            if a.packet_id != packet_id {
                Err(Error::Protocol(owned("Mismatched PUBACK packet ID")))
            } else {
                Ok(())
            }
        },
        _ => Err(Error::Protocol(owned("Expected PUBACK packet"))),
    }
}

/// Checks the PUBREC for a QoS 2 publication with `packet_id`.
pub fn check_pubrec(packet: &Packet, packet_id: u16) -> (r: Result<()>)
    ensures
        (packet@.payload matches PayloadView::PubRec(a) && a.packet_id == packet_id) ==> r is Ok,
        (packet@.payload matches PayloadView::PubRec(a) && a.packet_id != packet_id) ==> (r matches Err(
            Error::Protocol(m),
        ) && m@ == "Mismatched PUBREC packet ID"@),
        !(packet@.payload is PubRec) ==> (r matches Err(Error::Protocol(m)) && m@ == "Expected PUBREC packet"@),
{
    match &packet.payload {
        PacketPayload::PubRec(a) => {
            if a.packet_id != packet_id {
                Err(Error::Protocol(owned("Mismatched PUBREC packet ID")))
            } else {
                Ok(())
            }
        },
        _ => Err(Error::Protocol(owned("Expected PUBREC packet"))),
    }
}

/// Checks the PUBCOMP that ends a QoS 2 publication with `packet_id`.
pub fn check_pubcomp(packet: &Packet, packet_id: u16) -> (r: Result<()>)
    ensures
        (packet@.payload matches PayloadView::PubComp(a) && a.packet_id == packet_id) ==> r is Ok,
        (packet@.payload matches PayloadView::PubComp(a) && a.packet_id != packet_id) ==> (r matches Err(
            Error::Protocol(m),
        ) && m@ == "Mismatched PUBCOMP packet ID"@),
        !(packet@.payload is PubComp) ==> (r matches Err(Error::Protocol(m)) && m@ == "Expected PUBCOMP packet"@),
{
    match &packet.payload {
        PacketPayload::PubComp(a) => {
            if a.packet_id != packet_id {
                Err(Error::Protocol(owned("Mismatched PUBCOMP packet ID")))
            } else {
                Ok(())
            }
        },
        _ => Err(Error::Protocol(owned("Expected PUBCOMP packet"))),
    }
}

/// What checking a received packet against an awaited PUBACK for `id`
/// gives: success, or the text of the protocol error.
pub open spec fn check_puback_outcome(p: PacketView, id: u16) -> std::result::Result<(), Seq<char>> {
    match p.payload {
        PayloadView::PubAck(a) => if a.packet_id == id {
            Ok(())
        } else {
            Err("Mismatched PUBACK packet ID"@)
        },
        _ => Err("Expected PUBACK packet"@),
    }
}

/// What checking a received packet against an awaited PUBREC for `id`
/// gives: success, or the text of the protocol error.
pub open spec fn check_pubrec_outcome(p: PacketView, id: u16) -> std::result::Result<(), Seq<char>> {
    match p.payload {
        PayloadView::PubRec(a) => if a.packet_id == id {
            Ok(())
        } else {
            Err("Mismatched PUBREC packet ID"@)
        },
        _ => Err("Expected PUBREC packet"@),
    }
}

/// What checking a received packet against an awaited PUBCOMP for `id`
/// gives: success, or the text of the protocol error.
pub open spec fn check_pubcomp_outcome(p: PacketView, id: u16) -> std::result::Result<(), Seq<char>> {
    match p.payload {
        PayloadView::PubComp(a) => if a.packet_id == id {
            Ok(())
        } else {
            Err("Mismatched PUBCOMP packet ID"@)
        },
        _ => Err("Expected PUBCOMP packet"@),
    }
}

/// An awaited acknowledgment is accepted exactly when the packet received is
/// that acknowledgment and carries the awaited packet ID.
pub proof fn lemma_ack_accepted_iff_matching(p: PacketView, id: u16)
    ensures
        check_puback_outcome(p, id) is Ok <==> (p.payload matches PayloadView::PubAck(a) && a.packet_id == id),
        check_pubrec_outcome(p, id) is Ok <==> (p.payload matches PayloadView::PubRec(a) && a.packet_id == id),
        check_pubcomp_outcome(p, id) is Ok <==> (p.payload matches PayloadView::PubComp(a) && a.packet_id == id),
{
}

/// Where a publication stands while its acknowledgments come in.
#[derive(Debug, Clone, Copy, PartialEq, Eq, Structural)]
pub enum PublishStage {
    /// QoS 1: the PUBACK for this packet ID is awaited.
    AwaitPubAck(u16),
    /// QoS 2: the PUBREC for this packet ID is awaited.
    AwaitPubRec(u16),
    /// QoS 2: a PUBREL was sent and the PUBCOMP for this packet ID is awaited.
    AwaitPubComp(u16),
    /// Nothing more is awaited.
    Done,
}

/// The stage a publication is in once its PUBLISH is sent: at QoS 0 it is
/// done; at QoS 1 a PUBACK and at QoS 2 a PUBREC for `packet_id` is awaited.
pub fn publish_start(qos: QoS, packet_id: u16) -> (r: PublishStage)
    ensures
        qos == QoS::AtMostOnce ==> r == PublishStage::Done,
        qos == QoS::AtLeastOnce ==> r == PublishStage::AwaitPubAck(packet_id),
        qos == QoS::ExactlyOnce ==> r == PublishStage::AwaitPubRec(packet_id),
{
    match qos {
        QoS::AtMostOnce => PublishStage::Done,
        QoS::AtLeastOnce => PublishStage::AwaitPubAck(packet_id),
        QoS::ExactlyOnce => PublishStage::AwaitPubRec(packet_id),
    }
}

/// The step a publication takes on the packet it receives at `stage`: the
/// packet to send in answer, if any, and the next stage. A matching PUBACK
/// or PUBCOMP ends it; a matching PUBREC is answered with the PUBREL for the
/// same packet ID, after which the PUBCOMP is awaited. Any other packet is a
/// protocol error. At `Done` nothing is awaited and nothing changes.
pub fn publish_step(stage: PublishStage, packet: &Packet) -> (r: Result<(Option<Packet>, PublishStage)>)
    ensures
        stage == PublishStage::Done ==> (r matches Ok((None, s)) && s == PublishStage::Done),
        stage matches PublishStage::AwaitPubAck(id) ==> match check_puback_outcome(packet@, id) {
            Ok(()) => r matches Ok((None, s)) && s == PublishStage::Done,
            Err(m) => r matches Err(Error::Protocol(e)) && e@ == m,
        },
        stage matches PublishStage::AwaitPubRec(id) ==> match check_pubrec_outcome(packet@, id) {
            Ok(()) => r matches Ok((Some(q), s)) && q@ == (PacketView {
                header: plain_header(PacketType::PubRel, 1),
                payload: PayloadView::PubRel(plain_ack(id)),
            }) && s == PublishStage::AwaitPubComp(id),
            Err(m) => r matches Err(Error::Protocol(e)) && e@ == m,
        },
        stage matches PublishStage::AwaitPubComp(id) ==> match check_pubcomp_outcome(packet@, id) {
            Ok(()) => r matches Ok((None, s)) && s == PublishStage::Done,
            Err(m) => r matches Err(Error::Protocol(e)) && e@ == m,
        },
{
    match stage {
        PublishStage::Done => Ok((None, PublishStage::Done)),
        PublishStage::AwaitPubAck(id) => match check_puback(packet, id) {
            Ok(()) => Ok((None, PublishStage::Done)),
            Err(e) => Err(e),
        },
        PublishStage::AwaitPubRec(id) => match check_pubrec(packet, id) {
            Ok(()) => Ok((Some(pubrel_packet(id)), PublishStage::AwaitPubComp(id))),
            Err(e) => Err(e),
        },
        PublishStage::AwaitPubComp(id) => match check_pubcomp(packet, id) {
            Ok(()) => Ok((None, PublishStage::Done)),
            Err(e) => Err(e),
        },
    }
}

/// What a client does with a packet it receives: the message to deliver,
/// if any, and the packet to answer with, if any.
pub struct Incoming {
    pub message: Option<Message>,
    pub reply: Option<Packet>,
}

/// The message carried by a received PUBLISH, with the flags of its header.
pub open spec fn received_message(h: PacketHeader, p: PublishPacketView) -> MessageView {
    MessageView { topic: p.topic_name, payload: p.payload, qos: h.qos, retain: h.retain, dup: h.dup, packet_id: p.packet_id }
}

/// The answer to a received packet: a PUBLISH is delivered and, at QoS 1
/// or 2, acknowledged with a PUBACK or a PUBREC; a PUBREL gets a PUBCOMP; a
/// PINGREQ gets a PINGRESP; anything else is ignored.
pub open spec fn incoming_reply(p: PacketView) -> Option<PacketView> {
    match p.payload {
        PayloadView::Publish(x) => if p.header.qos == 1 {
            Some(PacketView { header: plain_header(PacketType::PubAck, 0), payload: PayloadView::PubAck(plain_ack(x.packet_id.unwrap())) })
        } else if p.header.qos == 2 {
            Some(PacketView { header: plain_header(PacketType::PubRec, 0), payload: PayloadView::PubRec(plain_ack(x.packet_id.unwrap())) })
        } else {
            None
        },
        PayloadView::PubRel(a) => Some(PacketView { header: plain_header(PacketType::PubComp, 0), payload: PayloadView::PubComp(plain_ack(a.packet_id)) }),
        PayloadView::PingReq => Some(PacketView { header: plain_header(PacketType::PingResp, 0), payload: PayloadView::PingResp }),
        _ => None,
    }
}

/// A received PUBLISH at QoS 1 is answered with a PUBACK for its packet ID;
/// one at QoS 2 with a PUBREC for its packet ID, never a PUBACK; one at QoS
/// 0 with nothing. A PUBREL is answered with a PUBCOMP for its packet ID and
/// a PINGREQ with a PINGRESP; an acknowledgment of the client's own
/// publishing is not answered.
pub proof fn lemma_incoming_answers(p: PacketView, id: u16)
    ensures
        (p.payload matches PayloadView::Publish(x) && x.packet_id == Some(id) && p.header.qos == 1) ==> (incoming_reply(
            p,
        ) matches Some(r) && r.header.packet_type == PacketType::PubAck && r.payload == PayloadView::PubAck(
            AckView { packet_id: id, reason_code: None, has_properties: false },
        )),
        (p.payload matches PayloadView::Publish(x) && x.packet_id == Some(id) && p.header.qos == 2) ==> (incoming_reply(
            p,
        ) matches Some(r) && r.header.packet_type == PacketType::PubRec && r.payload == PayloadView::PubRec(
            AckView { packet_id: id, reason_code: None, has_properties: false },
        )),
        (p.payload is Publish && p.header.qos == 0) ==> incoming_reply(p) is None,
        (p.payload matches PayloadView::PubRel(a) && a.packet_id == id) ==> (incoming_reply(p) matches Some(r)
            && r.header.packet_type == PacketType::PubComp && r.payload == PayloadView::PubComp(
            AckView { packet_id: id, reason_code: None, has_properties: false },
        )),
        p.payload is PingReq ==> (incoming_reply(p) matches Some(r) && r.header.packet_type == PacketType::PingResp
            && r.payload == PayloadView::PingResp),
        (p.payload is PubAck || p.payload is PubRec || p.payload is PubComp) ==> incoming_reply(p) is None,
{
}

/// The message delivered from a received PUBLISH is its topic and payload
/// with the QoS and flags of its header and its packet ID.
pub proof fn lemma_received_message_fields(h: PacketHeader, p: PublishPacketView)
    ensures
        received_message(h, p).topic == p.topic_name,
        received_message(h, p).payload == p.payload,
        received_message(h, p).qos == h.qos,
        received_message(h, p).retain == h.retain,
        received_message(h, p).dup == h.dup,
        received_message(h, p).packet_id == p.packet_id,
{
}

/// Handles a received packet. A PUBLISH at QoS 1 or 2 must carry a packet
/// ID, as every decoded one does.
pub fn incoming(packet: Packet) -> (r: Incoming)
    requires
        (packet@.payload matches PayloadView::Publish(x) && (packet.header.qos == 1 || packet.header.qos == 2))
            ==> packet@.payload->Publish_0.packet_id is Some,
    ensures
        packet@.payload matches PayloadView::Publish(x) ==> (r.message matches Some(m) && m@ == received_message(
            packet.header,
            x,
        )),
        !(packet@.payload is Publish) ==> r.message is None,
        incoming_reply(packet@) matches Some(v) ==> (r.reply matches Some(q) && q@ == v),
        incoming_reply(packet@) is None ==> r.reply is None,
{
    let h = packet.header;
    match packet.payload {
        PacketPayload::Publish(publish) => {
            let reply = if h.qos == 1 {
                Some(puback_packet(publish.packet_id.unwrap()))
            } else if h.qos == 2 {
                Some(pubrec_packet(publish.packet_id.unwrap()))
            } else {
                None
            };
            let message = Message {
                topic: publish.topic_name,
                payload: publish.payload,
                qos: h.qos,
                retain: h.retain,
                dup: h.dup,
                packet_id: publish.packet_id,
            };
            Incoming { message: Some(message), reply }
        },
        PacketPayload::PubRel(pubrel) => Incoming { message: None, reply: Some(pubcomp_packet(pubrel.packet_id)) },
        PacketPayload::PingReq => Incoming { message: None, reply: Some(pingresp_packet()) },
        _ => Incoming { message: None, reply: None },
    }
}

} // verus!
