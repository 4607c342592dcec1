use std::time::Duration;
use bytes::{BufMut, Bytes, BytesMut};
use dumq_mqtt::client::connection::{
    publish_start, publish_step, PublishStage,
    ack_packet_id, assign_packet_id, check_connack, check_puback, check_pubcomp, check_pubrec,
    connect_packet, ensure_connected, ensure_disconnected, expect_connack, expect_suback,
    expect_unsuback, incoming, publish_packet, subscribe_packet, unsubscribe_packet,
};
use dumq_mqtt::client::driver::listen_continues;
use dumq_mqtt::client::{ClientCore, ConnectionState, DefaultMessageHandler};
use dumq_mqtt::codec::spec::DecodeFault;
use dumq_mqtt::codec::utils::{decode_remaining_length, decode_string, encode_remaining_length, take_u16};
use dumq_mqtt::codec::MqttCodec;
use dumq_mqtt::codec::properties::{
    decode_connack_properties, decode_connect_properties, encode_connack_properties, encode_connect_properties,
};
use dumq_mqtt::codec::connect::decode_connect;
use dumq_mqtt::error::Error;
use dumq_mqtt::protocol::{ConnectOptions, PacketIdCounter, PublishOptions, QoS, ReasonCode};
use dumq_mqtt::server::connection::{
    check_connect, handle_connect, handle_disconnect, handle_publish, handle_pubrel, handle_subscribe,
    handle_unsubscribe, publish_ack_packet, retained_publishes, subscribers_for, PublishAck,
};
use dumq_mqtt::server::topic::topic_matches;
use dumq_mqtt::server::{Authentication, MessageRouter, ServerConfig, SessionManager};
use dumq_mqtt::types::builders::{pingresp_packet, puback_packet, pubcomp_packet, pubrec_packet, pubrel_packet};
use dumq_mqtt::types::{
    ConnAckPacket, ConnAckProperties, ConnectPacket, ConnectProperties, ConnectReturnCode, Message, Packet, PacketHeader,
    PacketPayload, PacketType, PublishPacket, PublishProperties, SubscribePacket, TopicFilter,
    UnsubscribePacket,
};

fn connect_for(client_id: &str, version: u8, username: Option<&str>, password: Option<&str>) -> ConnectPacket {
    ConnectPacket {
        protocol_name: "MQTT".to_string(),
        protocol_version: version,
        clean_session: true,
        will_flag: false,
        will_qos: 0,
        will_retain: false,
        password_flag: password.is_some(),
        username_flag: username.is_some(),
        keep_alive: 60,
        client_id: client_id.to_string(),
        will_topic: None,
        will_message: None,
        username: username.map(|s| s.to_string()),
        password: password.map(|s| s.to_string()),
        properties: None,
    }
}

fn publish_header(qos: u8, retain: bool) -> PacketHeader {
    PacketHeader { packet_type: PacketType::Publish, dup: false, qos, retain, remaining_length: 0 }
}

fn publish_of(topic: &str, payload: &'static str, packet_id: Option<u16>) -> PublishPacket {
    PublishPacket { topic_name: topic.to_string(), packet_id, payload: Bytes::from(payload), properties: None }
}

fn connack_code(p: &Packet) -> (bool, ConnectReturnCode) {
    match &p.payload {
        PacketPayload::ConnAck(c) => (c.session_present, c.return_code),
        _ => panic!("expected CONNACK"),
    }
}

// --- codec -----------------------------------------------------------------

#[test]
fn decoding_two_packets_from_one_buffer_leaves_nothing() {
    let codec = MqttCodec::new(4);
    let mut buf = BytesMut::new();
    buf.extend_from_slice(&codec.encode(&pingresp_packet()).unwrap());
    buf.extend_from_slice(&codec.encode(&puback_packet(7)).unwrap());

    let first = codec.decode(&mut buf).unwrap().unwrap();
    assert_eq!(first.header.packet_type, PacketType::PingResp);
    let second = codec.decode(&mut buf).unwrap().unwrap();
    match second.payload {
        PacketPayload::PubAck(a) => assert_eq!(a.packet_id, 7),
        _ => panic!("expected PUBACK"),
    }
    assert_eq!(second.header.remaining_length, 2);
    assert!(buf.is_empty());
    assert!(codec.decode(&mut buf).unwrap().is_none());
}

#[test]
fn encoded_header_bytes_are_exact() {
    let codec = MqttCodec::new(4);
    assert_eq!(codec.encode(&pingresp_packet()).unwrap().as_ref(), &[0xD0, 0x00]);
    assert_eq!(codec.encode(&puback_packet(0x1234)).unwrap().as_ref(), &[0x40, 0x02, 0x12, 0x34]);
    assert_eq!(codec.encode(&pubrel_packet(1)).unwrap().as_ref(), &[0x62, 0x02, 0x00, 0x01]);
}

#[test]
fn connect_v5_properties_read_back() {
    let codec = MqttCodec::new(5);
    let mut props = ConnectProperties::new();
    props.session_expiry_interval = Some(3600);
    props.receive_maximum = Some(10);
    props.user_properties.insert("k".to_string(), "v".to_string());
    let mut connect = connect_for("c5", 5, Some("u"), Some("p"));
    connect.properties = Some(props);
    let packet = Packet {
        header: PacketHeader { packet_type: PacketType::Connect, dup: false, qos: 0, retain: false, remaining_length: 0 },
        payload: PacketPayload::Connect(connect),
    };
    let encoded = codec.encode(&packet).unwrap();
    let mut buf = BytesMut::from(encoded.as_ref());
    let decoded = codec.decode(&mut buf).unwrap().unwrap();
    assert_eq!(decoded.header.remaining_length, encoded.len() - 2);
    match decoded.payload {
        PacketPayload::Connect(c) => {
            assert_eq!(c.client_id, "c5");
            assert_eq!(c.username, Some("u".to_string()));
            assert_eq!(c.password, Some("p".to_string()));
            let p = c.properties.unwrap();
            assert_eq!(p.session_expiry_interval, Some(3600));
            assert_eq!(p.receive_maximum, Some(10));
            assert_eq!(p.user_properties.get("k"), Some(&"v".to_string()));
        },
        _ => panic!("expected CONNECT"),
    }
}

#[test]
fn publish_properties_are_not_put_on_the_wire() {
    let codec = MqttCodec::new(5);
    let publish = PublishPacket::new("a/b".to_string(), Bytes::from("x"))
        .properties(PublishProperties::new().topic_alias(3));
    let packet = Packet { header: publish_header(0, false), payload: PacketPayload::Publish(publish) };
    let encoded = codec.encode(&packet).unwrap();
    let mut buf = BytesMut::from(encoded.as_ref());
    match codec.decode(&mut buf).unwrap().unwrap().payload {
        PacketPayload::Publish(p) => {
            assert_eq!(p.topic_name, "a/b");
            assert_eq!(p.payload, Bytes::from("x"));
            let props = p.properties.unwrap();
            assert!(props.is_empty());
            assert_eq!(props.topic_alias, None);
        },
        _ => panic!("expected PUBLISH"),
    }
}

#[test]
fn auth_packets_are_refused_when_read() {
    let codec = MqttCodec::new(5);
    let mut buf = BytesMut::from(&[0xF0u8, 0x00][..]);
    match codec.decode(&mut buf) {
        Err(Error::Protocol(m)) => assert_eq!(m, "Auth not implemented"),
        other => panic!("unexpected {:?}", other),
    }
}

#[test]
fn packet_type_zero_is_invalid() {
    let codec = MqttCodec::new(4);
    let mut buf = BytesMut::from(&[0x00u8, 0x00][..]);
    match codec.decode(&mut buf) {
        Err(Error::InvalidPacket(m)) => assert_eq!(m, "Invalid packet type"),
        other => panic!("unexpected {:?}", other),
    }
}

#[test]
fn incomplete_packet_leaves_the_buffer_as_it_was() {
    let codec = MqttCodec::new(4);
    let mut buf = BytesMut::new();
    buf.put_u8(0x30);
    buf.put_u8(0x05);
    buf.put_u8(0x00);
    assert!(codec.decode(&mut buf).unwrap().is_none());
    assert_eq!(buf.as_ref(), &[0x30, 0x05, 0x00]);

    // The rest arrives: the same buffer now reads as the packet.
    buf.extend_from_slice(&[0x01, 0x74, 0x61, 0x62]);
    match codec.decode(&mut buf).unwrap().unwrap().payload {
        PacketPayload::Publish(p) => {
            assert_eq!(p.topic_name, "t");
            assert_eq!(p.payload, Bytes::from("ab"));
        },
        _ => panic!("expected PUBLISH"),
    }
    assert!(buf.is_empty());

    let mut one = BytesMut::from(&[0x10u8][..]);
    assert!(codec.decode(&mut one).unwrap().is_none());
    assert_eq!(one.as_ref(), &[0x10]);
    let mut short_length = BytesMut::from(&[0x30u8, 0x80][..]);
    assert!(codec.decode(&mut short_length).unwrap().is_none());
    assert_eq!(short_length.as_ref(), &[0x30, 0x80]);
}

#[test]
fn malformed_and_truncated_frames_are_errors() {
    let codec = MqttCodec::new(4);
    let mut long = BytesMut::from(&[0x30u8, 0x80, 0x80, 0x80, 0x80, 0x01, 0x07][..]);
    match codec.decode(&mut long) {
        Err(Error::InvalidPacket(m)) => assert_eq!(m, "Malformed remaining length"),
        other => panic!("unexpected {:?}", other),
    }
    assert_eq!(long.as_ref(), &[0x01, 0x07]);
    let mut puback = BytesMut::from(&[0x40u8, 0x00][..]);
    match codec.decode(&mut puback) {
        Err(Error::InvalidPacket(m)) => assert_eq!(m, "Truncated packet"),
        other => panic!("unexpected {:?}", other),
    }
}

#[test]
fn remaining_length_bytes_are_exact() {
    let mut buf = BytesMut::new();
    encode_remaining_length(321, &mut buf).unwrap();
    assert_eq!(buf.as_ref(), &[0xC1, 0x02]);
    assert_eq!(decode_remaining_length(&mut buf).unwrap(), 321);
    assert!(buf.is_empty());

    // A fourth byte that still carries the continuation bit is malformed.
    let mut four = BytesMut::from(&[0xFFu8, 0xFF, 0xFF, 0xFF, 0x01][..]);
    match decode_remaining_length(&mut four) {
        Err(Error::InvalidPacket(m)) => assert_eq!(m, "Malformed remaining length"),
        other => panic!("unexpected {:?}", other),
    }
    assert_eq!(four.as_ref(), &[0x01]);
    let mut max = BytesMut::from(&[0xFFu8, 0xFF, 0xFF, 0x7F][..]);
    assert_eq!(decode_remaining_length(&mut max).unwrap(), 268_435_455);

    let mut empty = BytesMut::new();
    assert!(matches!(decode_remaining_length(&mut empty), Err(Error::InvalidPacket(_))));
}

#[test]
fn invalid_utf8_string_is_refused() {
    let mut buf = BytesMut::from(&[0x00u8, 0x02, 0xC3, 0x28, 0x07][..]);
    assert!(matches!(decode_string(&mut buf), Err(Error::InvalidPacket(_))));
    assert_eq!(buf.as_ref(), &[0x07]);

    let mut short = BytesMut::from(&[0x00u8, 0x05, 0x61][..]);
    match decode_string(&mut short) {
        Err(Error::InvalidPacket(m)) => assert_eq!(m, "Insufficient data for string: need 5, have 1"),
        other => panic!("unexpected {:?}", other),
    }
    let mut bad = BytesMut::from(&[0x00u8, 0x01, 0xFF][..]);
    match decode_string(&mut bad) {
        Err(Error::InvalidPacket(m)) => assert!(m.starts_with("Invalid UTF-8: ")),
        other => panic!("unexpected {:?}", other),
    }

    let mut ok = BytesMut::from(&[0x00u8, 0x02, 0xC3, 0xA9][..]);
    assert_eq!(decode_string(&mut ok).unwrap(), "\u{e9}");
}

#[test]
fn codes_read_back() {
    for v in 0u8..=255 {
        if let Some(t) = PacketType::from_u8(v) {
            assert_eq!(t.to_u8(), v);
        }
        if let Some(c) = ConnectReturnCode::from_u8(v) {
            assert_eq!(c.to_u8(), v);
        }
        if let Some(r) = ReasonCode::from_u8(v) {
            assert_eq!(r.to_u8(), v);
        }
    }
    assert_eq!(ReasonCode::from_u8(0x87), Some(ReasonCode::NotAuthorized));
}

// --- topics, retained messages, sessions -------------------------------------

#[test]
fn filters_match_their_own_topic() {
    for t in ["a", "a/b", "a/b/c", "", "/x"] {
        assert!(topic_matches(t, t));
    }
    for t in ["a", "a/b/c", "x/y"] {
        assert!(topic_matches("#", t));
    }
    assert!(topic_matches("a/+", "a/b"));
    assert!(!topic_matches("a/+", "a/b/c"));
    assert!(!topic_matches("a/+", "b/c"));
}

#[test]
fn retained_store_get_and_clear() {
    let mut router = MessageRouter::new();
    let m = Message {
        topic: "t".to_string(),
        payload: Bytes::from("1"),
        qos: 1,
        retain: true,
        dup: false,
        packet_id: Some(4),
    };
    router.store_retained_message("t".to_string(), m);
    assert_eq!(router.get_retained_message("t").unwrap().payload, Bytes::from("1"));
    assert_eq!(router.get_retained_messages_for_filters(&["t".to_string()]).len(), 1);
    router.clear_retained_message("t");
    assert!(router.get_retained_message("t").is_none());
    assert!(router.get_all_retained_messages().is_empty());
}

#[test]
fn subscribe_then_unsubscribe_leaves_no_subscriber() {
    let mut sessions = SessionManager::new();
    let id = Some("c1".to_string());
    let sub = SubscribePacket {
        packet_id: 9,
        topic_filters: vec![
            TopicFilter { topic: "a".to_string(), qos: 1, no_local: false, retain_as_published: false, retain_handling: 0 },
            TopicFilter { topic: "b".to_string(), qos: 3, no_local: false, retain_as_published: false, retain_handling: 0 },
        ],
        properties: None,
    };
    let suback = handle_subscribe(&mut sessions, &id, &sub);
    match suback.payload {
        PacketPayload::SubAck(s) => {
            assert_eq!(s.packet_id, 9);
            assert_eq!(s.return_codes, vec![1, 3]);
        },
        _ => panic!("expected SUBACK"),
    }
    assert_eq!(sessions.get_subscriptions("a")[0].qos, QoS::AtLeastOnce);
    assert_eq!(sessions.get_subscriptions("b")[0].qos, QoS::AtMostOnce);

    let unsub = UnsubscribePacket { packet_id: 10, topic_filters: vec!["a".to_string()], properties: None };
    let unsuback = handle_unsubscribe(&mut sessions, &id, &unsub);
    match unsuback.payload {
        PacketPayload::UnsubAck(u) => assert_eq!(u.packet_id, 10),
        _ => panic!("expected UNSUBACK"),
    }
    assert!(sessions.get_subscriptions("a").is_empty());
    assert_eq!(sessions.get_subscriptions("b").len(), 1);
}

// --- broker decisions ----------------------------------------------------------

#[test]
fn connect_refusals() {
    let config = ServerConfig::new("x").authentication(Authentication::new().add_user("u", "p")).allow_anonymous(false);
    assert_eq!(check_connect(&config, &connect_for("c", 5, None, None)), Some(ConnectReturnCode::UnacceptableProtocolVersion));
    let mut no_id = connect_for("", 4, Some("u"), Some("p"));
    no_id.clean_session = false;
    assert_eq!(check_connect(&config, &no_id), Some(ConnectReturnCode::IdentifierRejected));
    assert_eq!(check_connect(&config, &connect_for("c", 4, None, None)), Some(ConnectReturnCode::NotAuthorized));
    assert_eq!(check_connect(&config, &connect_for("c", 4, Some("u"), Some("bad"))), Some(ConnectReturnCode::BadUsernameOrPassword));
    assert_eq!(check_connect(&config, &connect_for("c", 4, Some("u"), None)), Some(ConnectReturnCode::BadUsernameOrPassword));
    let mut sessions = SessionManager::new();
    let reply = handle_connect(&config, &mut sessions, &connect_for("c", 4, Some("u"), None));
    assert_eq!(connack_code(&reply), (false, ConnectReturnCode::BadUsernameOrPassword));
    assert!(sessions.get_session("c").is_none());
    assert_eq!(check_connect(&config, &connect_for("c", 4, Some("u"), Some("p"))), None);
}

#[test]
fn accepted_connect_reports_an_earlier_session() {
    let config = ServerConfig::new("x");
    let mut sessions = SessionManager::new();
    let first = handle_connect(&config, &mut sessions, &connect_for("c", 4, None, None));
    assert_eq!(connack_code(&first), (false, ConnectReturnCode::Accepted));
    let again = handle_connect(&config, &mut sessions, &connect_for("c", 4, None, None));
    assert_eq!(connack_code(&again), (true, ConnectReturnCode::Accepted));
    let refused = handle_connect(&config, &mut sessions, &connect_for("d", 3, None, None));
    assert_eq!(connack_code(&refused), (false, ConnectReturnCode::UnacceptableProtocolVersion));
    assert!(sessions.get_session("d").is_none());
}

#[test]
fn publish_acknowledgments_and_retention() {
    let mut router = MessageRouter::new();
    let (m, ack) = handle_publish(&mut router, &publish_header(1, true), &publish_of("t", "v", Some(5)));
    assert_eq!(m.qos, 1);
    assert!(m.retain);
    assert_eq!(ack, PublishAck::PubAck(5));
    assert!(router.get_retained_message("t").is_some());
    match publish_ack_packet(ack).unwrap().payload {
        PacketPayload::PubAck(a) => assert_eq!(a.packet_id, 5),
        _ => panic!("expected PUBACK"),
    }

    let (_, ack2) = handle_publish(&mut router, &publish_header(2, false), &publish_of("u", "v", Some(6)));
    assert_eq!(ack2, PublishAck::PubRec(6));
    assert!(router.get_retained_message("u").is_none());

    let (_, ack0) = handle_publish(&mut router, &publish_header(0, true), &publish_of("t", "", None));
    assert_eq!(ack0, PublishAck::Nothing);
    assert!(publish_ack_packet(ack0).is_none());
    assert!(router.get_retained_message("t").is_none());
}

#[test]
fn pubrel_is_answered_with_pubcomp() {
    match handle_pubrel(6, &pubrel_packet(6)).unwrap().payload {
        PacketPayload::PubComp(c) => assert_eq!(c.packet_id, 6),
        _ => panic!("expected PUBCOMP"),
    }
    match handle_pubrel(6, &pubrel_packet(7)) {
        Err(Error::Protocol(m)) => assert_eq!(m, "Mismatched PUBREL packet ID"),
        _ => panic!("expected a protocol error"),
    }
    match handle_pubrel(6, &puback_packet(6)) {
        Err(Error::Protocol(m)) => assert_eq!(m, "Expected PUBREL packet"),
        _ => panic!("expected a protocol error"),
    }
}

// --- client decisions ----------------------------------------------------------

#[test]
fn connect_packet_follows_the_options() {
    let options = ConnectOptions::new("cid").username("u").password("p").will("w", b"bye", QoS::AtLeastOnce, true);
    let packet = connect_packet(3, &Duration::from_secs(70000), options).unwrap();
    match packet.payload {
        PacketPayload::Connect(c) => {
            assert_eq!(c.protocol_name, "MQIsdp");
            assert_eq!(c.protocol_version, 3);
            assert!(c.username_flag && c.password_flag && c.will_flag && c.will_retain);
            assert_eq!(c.will_qos, 1);
            assert_eq!(c.keep_alive, (70000u64 % 65536) as u16);
            assert_eq!(c.will_message, Some(Bytes::from("bye")));
        },
        _ => panic!("expected CONNECT"),
    }
    assert!(matches!(connect_packet(9, &Duration::from_secs(1), ConnectOptions::new("c")), Err(Error::UnsupportedVersion(9))));
}

#[test]
fn client_state_and_answer_checks() {
    assert!(ensure_disconnected(&ConnectionState::Disconnected).is_ok());
    assert!(matches!(ensure_disconnected(&ConnectionState::Connected), Err(Error::Client(_))));
    assert!(ensure_connected(&ConnectionState::Connected).is_ok());
    match ensure_connected(&ConnectionState::Connecting) {
        Err(Error::Client(m)) => assert_eq!(m, "Client is not connected"),
        _ => panic!("expected a client error"),
    }
    let accepted = ConnAckPacket::new(ConnectReturnCode::Accepted);
    assert!(check_connack(&accepted).is_ok());
    match check_connack(&ConnAckPacket::new(ConnectReturnCode::NotAuthorized)) {
        Err(Error::Connection(m)) => assert_eq!(m, "Connection rejected: NotAuthorized"),
        _ => panic!("expected a connection error"),
    }
    assert!(matches!(expect_connack(pingresp_packet()), Err(Error::Protocol(_))));
    assert!(expect_suback(&subscribe_packet("t", QoS::AtMostOnce, 1)).is_err());
    assert!(expect_unsuback(&unsubscribe_packet("t", 1)).is_err());
    assert!(check_puback(&puback_packet(3), 3).is_ok());
    match check_puback(&puback_packet(3), 4) {
        Err(Error::Protocol(m)) => assert_eq!(m, "Mismatched PUBACK packet ID"),
        _ => panic!("expected a protocol error"),
    }
    assert!(check_pubrec(&pubrec_packet(3), 3).is_ok());
    assert!(check_pubcomp(&pubrec_packet(3), 3).is_err());
    assert!(check_pubcomp(&pubcomp_packet(3), 3).is_ok());
}

#[test]
fn packet_ids_for_publications() {
    let mut ids = PacketIdCounter::new();
    let o = assign_packet_id(PublishOptions::new("t", b"x").qos(QoS::AtLeastOnce), &mut ids);
    assert_eq!(o.packet_id, Some(1));
    let o0 = assign_packet_id(PublishOptions::new("t", b"x").packet_id(9), &mut ids);
    assert_eq!(o0.packet_id, None);
    assert_eq!(ids.next, 2);
    assert_eq!(ack_packet_id(Some(40), &mut ids), 40);
    ids.next = u16::MAX;
    assert_eq!(ack_packet_id(None, &mut ids), u16::MAX);
    assert_eq!(ids.next, 0);

    let p = publish_packet(PublishOptions::new("t", b"x").qos(QoS::ExactlyOnce).retain(true).packet_id(2));
    assert_eq!(p.header.qos, 2);
    assert!(p.header.retain);
}

#[test]
fn incoming_packets_are_answered() {
    let publish = Packet { header: publish_header(1, false), payload: PacketPayload::Publish(publish_of("t", "hi", Some(12))) };
    let r = incoming(publish);
    assert_eq!(r.message.unwrap().payload, Bytes::from("hi"));
    match r.reply.unwrap().payload {
        PacketPayload::PubAck(a) => assert_eq!(a.packet_id, 12),
        _ => panic!("expected PUBACK"),
    }
    let r2 = incoming(pubrel_packet(4));
    assert!(r2.message.is_none());
    assert!(matches!(r2.reply.unwrap().payload, PacketPayload::PubComp(_)));
    let ping = Packet {
        header: PacketHeader { packet_type: PacketType::PingReq, dup: false, qos: 0, retain: false, remaining_length: 0 },
        payload: PacketPayload::PingReq,
    };
    assert!(matches!(incoming(ping).reply.unwrap().payload, PacketPayload::PingResp));
    assert!(incoming(puback_packet(1)).reply.is_none());
}

#[test]
fn default_handler_reads_utf8_payloads() {
    let handler = DefaultMessageHandler;
    let mut m = Message {
        topic: "t".to_string(),
        payload: Bytes::from("caf\u{e9}"),
        qos: 0,
        retain: false,
        dup: false,
        packet_id: None,
    };
    assert_eq!(handler.payload_text(&m), Some("caf\u{e9}".to_string()));
    m.payload = Bytes::from(vec![0xFFu8, 0xFE]);
    assert_eq!(handler.payload_text(&m), None);
}

#[test]
fn retained_messages_go_out_with_fresh_packet_ids() {
    let mut router = MessageRouter::new();
    for (topic, qos) in [("h/a", 1u8), ("h/b", 0u8), ("h/c", 2u8)] {
        router.store_retained_message(
            topic.to_string(),
            Message { topic: topic.to_string(), payload: Bytes::from("v"), qos, retain: true, dup: false, packet_id: None },
        );
    }
    let filters = vec![TopicFilter { topic: "h/+".to_string(), qos: 1, no_local: false, retain_as_published: false, retain_handling: 0 }];
    let mut ids = PacketIdCounter::new();
    ids.next = u16::MAX;
    let out = retained_publishes(&router, &filters, &mut ids);
    assert_eq!(out.len(), 3);
    let got: Vec<(String, u8, Option<u16>, bool)> = out
        .iter()
        .map(|p| match &p.payload {
            PacketPayload::Publish(x) => (x.topic_name.clone(), p.header.qos, x.packet_id, p.header.retain),
            _ => panic!("expected PUBLISH"),
        })
        .collect();
    assert_eq!(
        got,
        vec![
            ("h/a".to_string(), 1, Some(u16::MAX), true),
            ("h/b".to_string(), 0, None, true),
            ("h/c".to_string(), 2, Some(1), true),
        ]
    );
    assert_eq!(ids.next, 2);
}

#[test]
fn messages_are_routed_to_matching_subscriptions() {
    let mut sessions = SessionManager::new();
    sessions.add_subscription("c1".to_string(), "s/+".to_string(), QoS::AtMostOnce);
    sessions.add_subscription("c2".to_string(), "s/x".to_string(), QoS::AtLeastOnce);
    sessions.add_subscription("c3".to_string(), "t/#".to_string(), QoS::AtLeastOnce);
    sessions.add_subscription("c4".to_string(), "s/+".to_string(), QoS::ExactlyOnce);
    let subs = subscribers_for(&sessions, "s/x");
    let ids: Vec<&str> = subs.iter().map(|s| s.client_id.as_str()).collect();
    assert_eq!(ids, vec!["c1", "c4", "c2"]);
    assert!(subscribers_for(&sessions, "u").is_empty());
}

#[test]
fn disconnect_drops_a_clean_session_only() {
    let config = ServerConfig::new("x");
    let mut sessions = SessionManager::new();
    handle_connect(&config, &mut sessions, &connect_for("clean", 4, None, None));
    let mut keep = connect_for("keep", 4, None, None);
    keep.clean_session = false;
    handle_connect(&config, &mut sessions, &keep);
    handle_disconnect(&mut sessions, &Some("clean".to_string()));
    handle_disconnect(&mut sessions, &Some("keep".to_string()));
    handle_disconnect(&mut sessions, &None);
    assert!(sessions.get_session("clean").is_none());
    assert!(sessions.get_session("keep").is_some());
}

#[test]
fn client_core_follows_the_connection() {
    let mut core = ClientCore::new();
    assert!(matches!(core.start_request(), Err(Error::Client(_))));
    assert!(!core.start_disconnect());
    assert!(core.start_connect().is_ok());
    assert_eq!(core.state, ConnectionState::Connecting);
    assert!(core.start_connect().is_err());
    assert!(core.finish_connect(&ConnAckPacket::new(ConnectReturnCode::ServerBusy)).is_err());
    assert_eq!(core.state, ConnectionState::Connecting);
    assert!(core.finish_connect(&ConnAckPacket::new(ConnectReturnCode::Accepted)).is_ok());
    assert_eq!(core.state, ConnectionState::Connected);

    assert_eq!(core.start_request().unwrap(), 1);
    core.subscribed("a".to_string(), QoS::AtLeastOnce);
    assert_eq!(core.subscriptions.get("a"), Some(&QoS::AtLeastOnce));
    let p = core.start_publish(PublishOptions::new("a", b"x").qos(QoS::ExactlyOnce)).unwrap();
    assert_eq!(p.packet_id, Some(2));
    let p0 = core.start_publish(PublishOptions::new("a", b"x")).unwrap();
    assert_eq!(p0.packet_id, None);
    core.unsubscribed("a");
    assert!(core.subscriptions.is_empty());

    assert!(core.start_disconnect());
    assert_eq!(core.state, ConnectionState::Disconnecting);
    core.finish_disconnect();
    assert_eq!(core.state, ConnectionState::Disconnected);

    assert!(listen_continues(&Ok(None)));
    assert!(listen_continues(&Err(Error::Timeout)));
    assert!(!listen_continues(&Err(Error::Disconnected)));
}

#[test]
fn truncated_payloads_are_reported() {
    let codec = MqttCodec::new(4);
    let mut buf = BytesMut::from(&[0x40u8, 0x01, 0x00, 0x99][..]);
    assert!(matches!(codec.decode_checked(&mut buf), Err(DecodeFault::Truncated)));

    let mut one = BytesMut::from(&[0x01u8][..]);
    assert!(matches!(take_u16(&mut one), Err(DecodeFault::Truncated)));
    let mut two = BytesMut::from(&[0x01u8, 0x02][..]);
    assert_eq!(take_u16(&mut two).unwrap(), 0x0102);
}

#[test]
fn qos2_publication_sends_pubrel_only_after_its_pubrec() {
    let stage = publish_start(QoS::ExactlyOnce, 9);
    assert_eq!(stage, PublishStage::AwaitPubRec(9));
    // A PUBCOMP before the PUBREC is a protocol error, and nothing is sent.
    match publish_step(stage, &pubcomp_packet(9)) {
        Err(Error::Protocol(m)) => assert_eq!(m, "Expected PUBREC packet"),
        _ => panic!("expected a protocol error"),
    }
    match publish_step(stage, &pubrec_packet(8)) {
        Err(Error::Protocol(m)) => assert_eq!(m, "Mismatched PUBREC packet ID"),
        _ => panic!("expected a protocol error"),
    }
    let (reply, next) = publish_step(stage, &pubrec_packet(9)).unwrap();
    assert_eq!(next, PublishStage::AwaitPubComp(9));
    let reply = reply.unwrap();
    assert_eq!(MqttCodec::new(4).encode(&reply).unwrap().as_ref(), &[0x62, 0x02, 0x00, 0x09]);
    let (reply, next) = publish_step(next, &pubcomp_packet(9)).unwrap();
    assert!(reply.is_none());
    assert_eq!(next, PublishStage::Done);

    assert_eq!(publish_start(QoS::AtMostOnce, 1), PublishStage::Done);
    let (reply, next) = publish_step(publish_start(QoS::AtLeastOnce, 3), &puback_packet(3)).unwrap();
    assert!(reply.is_none());
    assert_eq!(next, PublishStage::Done);
}

#[test]
fn connack_properties_out_of_range_are_refused() {
    let mut buf = BytesMut::new();
    match encode_connack_properties(&ConnAckProperties::new().max_qos(3), &mut buf) {
        Err(Error::InvalidPacket(m)) => assert_eq!(m, "Maximum QoS above 2"),
        other => panic!("unexpected {:?}", other),
    }
    assert!(buf.is_empty());
    let too_big = ConnAckProperties::new().max_packet_size(300_000_000);
    assert!(matches!(encode_connack_properties(&too_big, &mut buf), Err(Error::InvalidPacket(_))));
    assert!(buf.is_empty());
    encode_connack_properties(&ConnAckProperties::new().max_qos(2), &mut buf).unwrap();
    assert_eq!(buf.as_ref(), &[0x02, 0x24, 0x02]);

    // A CONNACK carrying them fails to encode under MQTT 5.0.
    let packet = Packet {
        header: PacketHeader { packet_type: PacketType::ConnAck, dup: false, qos: 0, retain: false, remaining_length: 0 },
        payload: PacketPayload::ConnAck(ConnAckPacket::new(ConnectReturnCode::Accepted).properties(ConnAckProperties::new().max_qos(3))),
    };
    assert!(matches!(MqttCodec::new(5).encode(&packet), Err(Error::InvalidPacket(_))));

    // Read back, such a value is malformed.
    let mut block = BytesMut::from(&[0x02u8, 0x24, 0x03, 0x09][..]);
    assert!(matches!(decode_connack_properties(&mut block), Err(Error::InvalidPacket(_))));
    assert_eq!(block.as_ref(), &[0x09]);
    let mut good = BytesMut::from(&[0x02u8, 0x24, 0x01][..]);
    assert_eq!(decode_connack_properties(&mut good).unwrap().max_qos, Some(1));
}

#[test]
fn v4_drops_what_it_does_not_carry() {
    let codec = MqttCodec::new(4);
    let sub = Packet {
        header: PacketHeader { packet_type: PacketType::Subscribe, dup: false, qos: 1, retain: false, remaining_length: 0 },
        payload: PacketPayload::Subscribe(SubscribePacket {
            packet_id: 4,
            topic_filters: vec![TopicFilter { topic: "a/#".to_string(), qos: 2, no_local: true, retain_as_published: true, retain_handling: 2 }],
            properties: None,
        }),
    };
    let encoded = codec.encode(&sub).unwrap();
    let mut buf = BytesMut::from(encoded.as_ref());
    buf.extend_from_slice(&[0xAA]);
    match codec.decode(&mut buf).unwrap().unwrap().payload {
        PacketPayload::Subscribe(s) => {
            assert_eq!(s.packet_id, 4);
            assert_eq!(s.topic_filters[0].topic, "a/#");
            assert_eq!(s.topic_filters[0].qos, 2);
            assert!(!s.topic_filters[0].no_local && !s.topic_filters[0].retain_as_published);
            assert_eq!(s.topic_filters[0].retain_handling, 0);
        },
        _ => panic!("expected SUBSCRIBE"),
    }
    assert_eq!(buf.as_ref(), &[0xAA]);
}

#[test]
fn property_blocks_longer_than_one_length_byte_are_refused() {
    let mut long = ConnectProperties::new();
    long.user_properties.insert("k".to_string(), "v".repeat(300));
    let mut buf = BytesMut::new();
    match encode_connect_properties(&long, &mut buf) {
        Err(Error::InvalidPacket(m)) => assert_eq!(m, "Property block too long"),
        other => panic!("unexpected {:?}", other),
    }

    let mut fits = ConnectProperties::new();
    fits.user_properties.insert("k".to_string(), "v".repeat(240));
    let mut buf = BytesMut::new();
    encode_connect_properties(&fits, &mut buf).unwrap();
    assert_eq!(buf[0], 246);
    let back = decode_connect_properties(&mut buf).unwrap();
    assert_eq!(back.user_properties.get("k"), Some(&"v".repeat(240)));
    assert!(buf.is_empty());

    let mut connack = ConnAckProperties::new();
    connack = connack.reason_string("r".repeat(300));
    let mut buf = BytesMut::new();
    match encode_connack_properties(&connack, &mut buf) {
        Err(Error::InvalidPacket(m)) => assert_eq!(m, "Property block too long"),
        other => panic!("unexpected {:?}", other),
    }
}

#[test]
fn decoders_report_truncation_as_an_error() {
    // A CONNECT payload that ends inside its protocol level and flags.
    let mut buf = BytesMut::from(&[0x00u8, 0x04, b'M', b'Q', b'T', b'T'][..]);
    match decode_connect(&mut buf, 4) {
        Err(Error::InvalidPacket(m)) => assert_eq!(m, "Truncated packet"),
        other => panic!("unexpected {:?}", other),
    }
    let mut props = BytesMut::from(&[0x05u8, 0x11, 0x00][..]);
    assert!(matches!(decode_connect_properties(&mut props), Err(Error::InvalidPacket(_))));
}

#[test]
fn keep_alive_takes_whole_seconds() {
    let packet = connect_packet(4, &Duration::from_millis(1500), ConnectOptions::new("c")).unwrap();
    match packet.payload {
        PacketPayload::Connect(c) => assert_eq!(c.keep_alive, 1),
        _ => panic!("expected CONNECT"),
    }
    assert_eq!(Error::UnsupportedVersion(203).to_string(), "Unsupported protocol version: 203");
    assert_eq!(Error::InvalidQoS(0).to_string(), "Invalid QoS level: 0");
}
