use bytes::Bytes;
use dumq_mqtt::string_map::StringMap;
use dumq_mqtt::types::{
    AuthPacket, ConnAckPacket, ConnAckProperties, ConnectPacket, ConnectProperties, ConnectReturnCode,
    DisconnectPacket, Message, Packet, PacketHeader, PacketPayload, PacketType, PubAckPacket,
    PublishPacket, PublishProperties, SubAckPacket, SubscribePacket, TopicFilter, UnsubAckPacket,
    UnsubscribePacket, PAYLOAD_FORMAT_INDICATOR_UNSPECIFIED, PAYLOAD_FORMAT_INDICATOR_UTF8,
};

#[test]
fn types_test_packet_type_from_u8() {
    assert_eq!(PacketType::from_u8(1), Some(PacketType::Connect));
    assert_eq!(PacketType::from_u8(2), Some(PacketType::ConnAck));
    assert_eq!(PacketType::from_u8(3), Some(PacketType::Publish));
    assert_eq!(PacketType::from_u8(4), Some(PacketType::PubAck));
    assert_eq!(PacketType::from_u8(5), Some(PacketType::PubRec));
    assert_eq!(PacketType::from_u8(6), Some(PacketType::PubRel));
    assert_eq!(PacketType::from_u8(7), Some(PacketType::PubComp));
    assert_eq!(PacketType::from_u8(8), Some(PacketType::Subscribe));
    assert_eq!(PacketType::from_u8(9), Some(PacketType::SubAck));
    assert_eq!(PacketType::from_u8(10), Some(PacketType::Unsubscribe));
    assert_eq!(PacketType::from_u8(11), Some(PacketType::UnsubAck));
    assert_eq!(PacketType::from_u8(12), Some(PacketType::PingReq));
    assert_eq!(PacketType::from_u8(13), Some(PacketType::PingResp));
    assert_eq!(PacketType::from_u8(14), Some(PacketType::Disconnect));
    assert_eq!(PacketType::from_u8(15), Some(PacketType::Auth));
    assert_eq!(PacketType::from_u8(0), None);
    assert_eq!(PacketType::from_u8(16), None);
    assert_eq!(PacketType::from_u8(255), None);
}

#[test]
fn types_test_packet_type_values() {
    assert_eq!(PacketType::Connect.to_u8(), 1);
    assert_eq!(PacketType::ConnAck.to_u8(), 2);
    assert_eq!(PacketType::Publish.to_u8(), 3);
    assert_eq!(PacketType::PubAck.to_u8(), 4);
    assert_eq!(PacketType::PubRec.to_u8(), 5);
    assert_eq!(PacketType::PubRel.to_u8(), 6);
    assert_eq!(PacketType::PubComp.to_u8(), 7);
    assert_eq!(PacketType::Subscribe.to_u8(), 8);
    assert_eq!(PacketType::SubAck.to_u8(), 9);
    assert_eq!(PacketType::Unsubscribe.to_u8(), 10);
    assert_eq!(PacketType::UnsubAck.to_u8(), 11);
    assert_eq!(PacketType::PingReq.to_u8(), 12);
    assert_eq!(PacketType::PingResp.to_u8(), 13);
    assert_eq!(PacketType::Disconnect.to_u8(), 14);
    assert_eq!(PacketType::Auth.to_u8(), 15);
}

#[test]
fn types_test_connect_return_code_from_u8() {
    assert_eq!(ConnectReturnCode::from_u8(0), Some(ConnectReturnCode::Accepted));
    assert_eq!(ConnectReturnCode::from_u8(1), Some(ConnectReturnCode::UnacceptableProtocolVersion));
    assert_eq!(ConnectReturnCode::from_u8(2), Some(ConnectReturnCode::IdentifierRejected));
    assert_eq!(ConnectReturnCode::from_u8(3), Some(ConnectReturnCode::ServerUnavailable));
    assert_eq!(ConnectReturnCode::from_u8(4), Some(ConnectReturnCode::BadUsernameOrPassword));
    assert_eq!(ConnectReturnCode::from_u8(5), Some(ConnectReturnCode::NotAuthorized));
    assert_eq!(ConnectReturnCode::from_u8(128), Some(ConnectReturnCode::MalformedPacket));
    assert_eq!(ConnectReturnCode::from_u8(130), Some(ConnectReturnCode::ProtocolError));
    assert_eq!(ConnectReturnCode::from_u8(131), Some(ConnectReturnCode::ImplementationSpecificError));
    assert_eq!(ConnectReturnCode::from_u8(132), Some(ConnectReturnCode::UnsupportedProtocolVersion));
    assert_eq!(ConnectReturnCode::from_u8(133), Some(ConnectReturnCode::ClientIdentifierNotValid));
    assert_eq!(ConnectReturnCode::from_u8(134), Some(ConnectReturnCode::BadUsernameOrPasswordV5));
    assert_eq!(ConnectReturnCode::from_u8(135), Some(ConnectReturnCode::NotAuthorizedV5));
    assert_eq!(ConnectReturnCode::from_u8(136), Some(ConnectReturnCode::ServerUnavailableV5));
    assert_eq!(ConnectReturnCode::from_u8(137), Some(ConnectReturnCode::ServerBusy));
    assert_eq!(ConnectReturnCode::from_u8(138), Some(ConnectReturnCode::Banned));
    assert_eq!(ConnectReturnCode::from_u8(140), Some(ConnectReturnCode::BadAuthenticationMethod));
    assert_eq!(ConnectReturnCode::from_u8(144), Some(ConnectReturnCode::TopicNameInvalid));
    assert_eq!(ConnectReturnCode::from_u8(149), Some(ConnectReturnCode::PacketTooLarge));
    assert_eq!(ConnectReturnCode::from_u8(151), Some(ConnectReturnCode::QuotaExceeded));
    assert_eq!(ConnectReturnCode::from_u8(153), Some(ConnectReturnCode::PayloadFormatInvalid));
    assert_eq!(ConnectReturnCode::from_u8(154), Some(ConnectReturnCode::RetainNotSupported));
    assert_eq!(ConnectReturnCode::from_u8(155), Some(ConnectReturnCode::QoSNotSupported));
    assert_eq!(ConnectReturnCode::from_u8(156), Some(ConnectReturnCode::UseAnotherServer));
    assert_eq!(ConnectReturnCode::from_u8(157), Some(ConnectReturnCode::ServerMoved));
    assert_eq!(ConnectReturnCode::from_u8(159), Some(ConnectReturnCode::ConnectionRateExceeded));
    assert_eq!(ConnectReturnCode::from_u8(6), None);
    assert_eq!(ConnectReturnCode::from_u8(255), None);
}

#[test]
fn types_test_connect_return_code_values() {
    assert_eq!(ConnectReturnCode::Accepted.to_u8(), 0);
    assert_eq!(ConnectReturnCode::UnacceptableProtocolVersion.to_u8(), 1);
    assert_eq!(ConnectReturnCode::IdentifierRejected.to_u8(), 2);
    assert_eq!(ConnectReturnCode::ServerUnavailable.to_u8(), 3);
    assert_eq!(ConnectReturnCode::BadUsernameOrPassword.to_u8(), 4);
    assert_eq!(ConnectReturnCode::NotAuthorized.to_u8(), 5);
    assert_eq!(ConnectReturnCode::MalformedPacket.to_u8(), 128);
    assert_eq!(ConnectReturnCode::ProtocolError.to_u8(), 130);
    assert_eq!(ConnectReturnCode::ImplementationSpecificError.to_u8(), 131);
    assert_eq!(ConnectReturnCode::UnsupportedProtocolVersion.to_u8(), 132);
    assert_eq!(ConnectReturnCode::ClientIdentifierNotValid.to_u8(), 133);
    assert_eq!(ConnectReturnCode::BadUsernameOrPasswordV5.to_u8(), 134);
    assert_eq!(ConnectReturnCode::NotAuthorizedV5.to_u8(), 135);
    assert_eq!(ConnectReturnCode::ServerUnavailableV5.to_u8(), 136);
    assert_eq!(ConnectReturnCode::ServerBusy.to_u8(), 137);
    assert_eq!(ConnectReturnCode::Banned.to_u8(), 138);
    assert_eq!(ConnectReturnCode::BadAuthenticationMethod.to_u8(), 140);
    assert_eq!(ConnectReturnCode::TopicNameInvalid.to_u8(), 144);
    assert_eq!(ConnectReturnCode::PacketTooLarge.to_u8(), 149);
    assert_eq!(ConnectReturnCode::QuotaExceeded.to_u8(), 151);
    assert_eq!(ConnectReturnCode::PayloadFormatInvalid.to_u8(), 153);
    assert_eq!(ConnectReturnCode::RetainNotSupported.to_u8(), 154);
    assert_eq!(ConnectReturnCode::QoSNotSupported.to_u8(), 155);
    assert_eq!(ConnectReturnCode::UseAnotherServer.to_u8(), 156);
    assert_eq!(ConnectReturnCode::ServerMoved.to_u8(), 157);
    assert_eq!(ConnectReturnCode::ConnectionRateExceeded.to_u8(), 159);
}

#[test]
fn types_test_packet_header_creation() {
    let header = PacketHeader {
        packet_type: PacketType::Publish,
        dup: false,
        qos: 1,
        retain: false,
        remaining_length: 100,
    };

    assert_eq!(header.packet_type, PacketType::Publish);
    assert_eq!(header.dup, false);
    assert_eq!(header.qos, 1);
    assert_eq!(header.retain, false);
    assert_eq!(header.remaining_length, 100);
}

#[test]
fn types_test_packet_header_clone() {
    let header = PacketHeader {
        packet_type: PacketType::Subscribe,
        dup: false,
        qos: 1,
        retain: false,
        remaining_length: 200,
    };

    let cloned_header = header.clone();
    assert_eq!(header.packet_type, cloned_header.packet_type);
    assert_eq!(header.dup, cloned_header.dup);
    assert_eq!(header.qos, cloned_header.qos);
    assert_eq!(header.retain, cloned_header.retain);
    assert_eq!(header.remaining_length, cloned_header.remaining_length);
}

#[test]
fn types_test_connect_packet_creation() {
    let connect_packet = ConnectPacket {
        protocol_name: "MQTT".to_string(),
        protocol_version: 4,
        clean_session: true,
        will_flag: false,
        will_qos: 0,
        will_retain: false,
        password_flag: false,
        username_flag: false,
        keep_alive: 60,
        client_id: "test_client".to_string(),
        will_topic: None,
        will_message: None,
        username: None,
        password: None,
        properties: None,
    };

    assert_eq!(connect_packet.protocol_name, "MQTT");
    assert_eq!(connect_packet.protocol_version, 4);
    assert_eq!(connect_packet.clean_session, true);
    assert_eq!(connect_packet.will_flag, false);
    assert_eq!(connect_packet.will_qos, 0);
    assert_eq!(connect_packet.will_retain, false);
    assert_eq!(connect_packet.password_flag, false);
    assert_eq!(connect_packet.username_flag, false);
    assert_eq!(connect_packet.keep_alive, 60);
    assert_eq!(connect_packet.client_id, "test_client");
    assert_eq!(connect_packet.will_topic, None);
    assert_eq!(connect_packet.will_message, None);
    assert_eq!(connect_packet.username, None);
    assert_eq!(connect_packet.password, None);
    assert!(connect_packet.properties.is_none());
}

#[test]
fn types_test_connect_packet_with_will() {
    let will_message = Bytes::from("test will message");
    let connect_packet = ConnectPacket {
        protocol_name: "MQTT".to_string(),
        protocol_version: 5,
        clean_session: false,
        will_flag: true,
        will_qos: 1,
        will_retain: true,
        password_flag: true,
        username_flag: true,
        keep_alive: 120,
        client_id: "will_client".to_string(),
        will_topic: Some("test/will".to_string()),
        will_message: Some(will_message.clone()),
        username: Some("test_user".to_string()),
        password: Some("test_pass".to_string()),
        properties: None,
    };

    assert_eq!(connect_packet.will_flag, true);
    assert_eq!(connect_packet.will_topic, Some("test/will".to_string()));
    assert_eq!(connect_packet.will_message, Some(will_message));
    assert_eq!(connect_packet.username, Some("test_user".to_string()));
    assert_eq!(connect_packet.password, Some("test_pass".to_string()));
}

#[test]
fn types_test_conn_ack_packet() {
    let conn_ack = ConnAckPacket {
        session_present: true,
        return_code: ConnectReturnCode::Accepted,
        properties: None,
    };

    assert_eq!(conn_ack.session_present, true);
    assert_eq!(conn_ack.return_code, ConnectReturnCode::Accepted);
    assert!(conn_ack.properties.is_none());
}

#[test]
fn types_test_publish_packet() {
    let payload = Bytes::from("Hello MQTT!");
    let publish_packet = PublishPacket {
        topic_name: "test/topic".to_string(),
        packet_id: Some(123),
        payload: payload.clone(),
        properties: None,
    };

    assert_eq!(publish_packet.topic_name, "test/topic");
    assert_eq!(publish_packet.packet_id, Some(123));
    assert_eq!(publish_packet.payload, payload);
    assert!(publish_packet.properties.is_none());
}

#[test]
fn types_test_publish_packet_qos0() {
    let payload = Bytes::from("QoS 0 message");
    let publish_packet = PublishPacket {
        topic_name: "test/qos0".to_string(),
        packet_id: None, // QoS 0 doesn't need packet ID
        payload: payload.clone(),
        properties: None,
    };

    assert_eq!(publish_packet.packet_id, None);
    assert_eq!(publish_packet.payload, payload);
}

#[test]
fn types_test_pub_ack_packet() {
    let pub_ack = PubAckPacket {
        packet_id: 456,
        reason_code: Some(0),
        properties: None,
    };

    assert_eq!(pub_ack.packet_id, 456);
    assert_eq!(pub_ack.reason_code, Some(0));
    assert!(pub_ack.properties.is_none());
}

#[test]
fn types_test_subscribe_packet() {
    let topic_filters = vec![
        TopicFilter {
            topic: "test/topic1".to_string(),
            qos: 0,
            no_local: false,
            retain_as_published: false,
            retain_handling: 0,
        },
        TopicFilter {
            topic: "test/topic2".to_string(),
            qos: 1,
            no_local: true,
            retain_as_published: true,
            retain_handling: 1,
        },
    ];

    let subscribe_packet = SubscribePacket {
        packet_id: 789,
        topic_filters: topic_filters.clone(),
        properties: None,
    };

    assert_eq!(subscribe_packet.packet_id, 789);
    assert_eq!(subscribe_packet.topic_filters.len(), 2);
    assert_eq!(subscribe_packet.topic_filters[0].topic, "test/topic1");
    assert_eq!(subscribe_packet.topic_filters[0].qos, 0);
    assert_eq!(subscribe_packet.topic_filters[1].topic, "test/topic2");
    assert_eq!(subscribe_packet.topic_filters[1].qos, 1);
}

#[test]
fn types_test_sub_ack_packet() {
    let return_codes = vec![0, 1, 2, 128]; // 128 = failure
    let sub_ack = SubAckPacket {
        packet_id: 101,
        return_codes: return_codes.clone(),
        properties: None,
    };

    assert_eq!(sub_ack.packet_id, 101);
    assert_eq!(sub_ack.return_codes, return_codes);
    assert!(sub_ack.properties.is_none());
}

#[test]
fn types_test_unsubscribe_packet() {
    let topic_filters = vec!["test/topic1".to_string(), "test/topic2".to_string()];
    let unsubscribe_packet = UnsubscribePacket {
        packet_id: 202,
        topic_filters: topic_filters.clone(),
        properties: None,
    };

    assert_eq!(unsubscribe_packet.packet_id, 202);
    assert_eq!(unsubscribe_packet.topic_filters, topic_filters);
    assert!(unsubscribe_packet.properties.is_none());
}

#[test]
fn types_test_unsub_ack_packet() {
    let reason_codes = vec![0, 17]; // 0 = success, 17 = no subscription existed
    let unsub_ack = UnsubAckPacket {
        packet_id: 303,
        reason_codes: reason_codes.clone(),
        properties: None,
    };

    assert_eq!(unsub_ack.packet_id, 303);
    assert_eq!(unsub_ack.reason_codes, reason_codes);
    assert!(unsub_ack.properties.is_none());
}

#[test]
fn types_test_disconnect_packet() {
    let disconnect = DisconnectPacket {
        reason_code: Some(0),
        properties: None,
    };

    assert_eq!(disconnect.reason_code, Some(0));
    assert!(disconnect.properties.is_none());
}

#[test]
fn types_test_auth_packet() {
    let auth = AuthPacket {
        reason_code: 0,
        properties: None,
    };

    assert_eq!(auth.reason_code, 0);
    assert!(auth.properties.is_none());
}

#[test]
fn types_test_connect_properties() {
    let mut user_properties = StringMap::new();
    user_properties.insert("key1".to_string(), "value1".to_string());
    user_properties.insert("key2".to_string(), "value2".to_string());

    let properties = ConnectProperties {
        session_expiry_interval: Some(3600),
        receive_maximum: Some(100),
        max_packet_size: Some(1024),
        topic_alias_maximum: Some(10),
        request_response_information: Some(true),
        request_problem_information: Some(false),
        user_properties: user_properties.clone(),
        authentication_method: Some("PLAIN".to_string()),
        authentication_data: Some(Bytes::from("auth_data")),
    };

    assert_eq!(properties.session_expiry_interval, Some(3600));
    assert_eq!(properties.receive_maximum, Some(100));
    assert_eq!(properties.max_packet_size, Some(1024));
    assert_eq!(properties.topic_alias_maximum, Some(10));
    assert_eq!(properties.request_response_information, Some(true));
    assert_eq!(properties.request_problem_information, Some(false));
    assert_eq!(properties.user_properties.len(), 2);
    assert_eq!(properties.authentication_method, Some("PLAIN".to_string()));
    assert_eq!(properties.authentication_data, Some(Bytes::from("auth_data")));
}

#[test]
fn types_test_publish_properties() {
    let mut props = PublishProperties::new();
    assert!(props.is_empty());

    props = props
        .payload_format_indicator(PAYLOAD_FORMAT_INDICATOR_UTF8)
        .message_expiry_interval(3600)
        .topic_alias(123)
        .response_topic("response/topic".to_string())
        .correlation_data(Bytes::from("correlation_data"))
        .subscription_identifier(456)
        .content_type("application/json".to_string())
        .user_property("key1".to_string(), "value1".to_string())
        .user_property("key2".to_string(), "value2".to_string());

    assert!(!props.is_empty());
    assert_eq!(props.payload_format_indicator, Some(PAYLOAD_FORMAT_INDICATOR_UTF8));
    assert_eq!(props.message_expiry_interval, Some(3600));
    assert_eq!(props.topic_alias, Some(123));
    assert_eq!(props.response_topic, Some("response/topic".to_string()));
    assert_eq!(props.correlation_data, Some(Bytes::from("correlation_data")));
    assert_eq!(props.subscription_identifier, Some(456));
    assert_eq!(props.content_type, Some("application/json".to_string()));
    assert_eq!(props.user_properties.len(), 2);
    assert_eq!(props.user_properties.get("key1"), Some(&"value1".to_string()));
    assert_eq!(props.user_properties.get("key2"), Some(&"value2".to_string()));

    // Test payload format indicator methods
    assert_eq!(props.payload_format_indicator_str(), Some("UTF-8"));
    assert!(props.is_utf8_payload());
    assert!(!props.is_unspecified_payload());

    // Test with unspecified payload format
    let mut props2 = PublishProperties::new();
    props2 = props2.payload_format_indicator(PAYLOAD_FORMAT_INDICATOR_UNSPECIFIED);
    assert_eq!(props2.payload_format_indicator_str(), Some("Unspecified"));
    assert!(props2.is_unspecified_payload());
    assert!(!props2.is_utf8_payload());
}

#[test]
fn types_test_publish_packet_with_properties() {
    let payload = Bytes::from("Hello, MQTT v5!");
    let mut packet = PublishPacket::new("test/topic".to_string(), payload.clone());

    // Test basic creation
    assert_eq!(packet.topic_name, "test/topic");
    assert_eq!(packet.payload, payload);
    assert!(packet.packet_id.is_none());
    assert!(packet.properties.is_none());
    assert!(!packet.has_properties());
    assert_eq!(packet.qos(), 0);

    // Test with QoS and packet ID
    let packet_with_qos = PublishPacket::with_qos("test/topic2".to_string(), payload.clone(), 1, 123);
    assert_eq!(packet_with_qos.topic_name, "test/topic2");
    assert_eq!(packet_with_qos.packet_id, Some(123));
    assert_eq!(packet_with_qos.qos(), 1);

    // Test setting properties using builder pattern
    packet = packet
        .payload_format_indicator(PAYLOAD_FORMAT_INDICATOR_UTF8)
        .message_expiry_interval(7200)
        .topic_alias(456)
        .response_topic("response/topic".to_string())
        .correlation_data(Bytes::from("corr_data"))
        .subscription_identifier(789)
        .content_type("text/plain".to_string())
        .user_property("app".to_string(), "test".to_string());

    assert!(packet.has_properties());
    if let Some(props) = &packet.properties {
        assert_eq!(props.payload_format_indicator, Some(PAYLOAD_FORMAT_INDICATOR_UTF8));
        assert_eq!(props.message_expiry_interval, Some(7200));
        assert_eq!(props.topic_alias, Some(456));
        assert_eq!(props.response_topic, Some("response/topic".to_string()));
        assert_eq!(props.correlation_data, Some(Bytes::from("corr_data")));
        assert_eq!(props.subscription_identifier, Some(789));
        assert_eq!(props.content_type, Some("text/plain".to_string()));
        assert_eq!(props.user_properties.get("app"), Some(&"test".to_string()));
    }

    // Test setting packet ID
    packet = packet.packet_id(999);
    assert_eq!(packet.packet_id, Some(999));
    assert_eq!(packet.qos(), 1);
}

#[test]
fn types_test_publish_properties_edge_cases() {
    // Test empty properties
    let props = PublishProperties::new();
    assert!(props.is_empty());
    assert_eq!(props.payload_format_indicator_str(), None);
    assert!(!props.is_utf8_payload());
    assert!(!props.is_unspecified_payload());

    // Test with invalid payload format indicator
    let mut props2 = PublishProperties::new();
    props2 = props2.payload_format_indicator(0xFF);
    assert_eq!(props2.payload_format_indicator_str(), None);
    assert!(!props2.is_utf8_payload());
    assert!(!props2.is_unspecified_payload());

    // Test user properties with different keys
    let mut props3 = PublishProperties::new();
    props3 = props3
        .user_property("empty_key".to_string(), "".to_string())
        .user_property("key".to_string(), "".to_string())
        .user_property("empty_value".to_string(), "value".to_string());
    
    assert_eq!(props3.user_properties.len(), 3);
    assert_eq!(props3.user_properties.get("empty_key"), Some(&"".to_string()));
    assert_eq!(props3.user_properties.get("key"), Some(&"".to_string()));
    assert_eq!(props3.user_properties.get("empty_value"), Some(&"value".to_string()));
}

#[test]
fn types_test_publish_packet_properties_builder() {
    let payload = Bytes::from("Test payload");
    let packet = PublishPacket::new("test/topic".to_string(), payload)
        .payload_format_indicator(PAYLOAD_FORMAT_INDICATOR_UTF8)
        .message_expiry_interval(3600)
        .topic_alias(123)
        .response_topic("response/topic".to_string())
        .correlation_data(Bytes::from("corr_data"))
        .subscription_identifier(456)
        .content_type("application/json".to_string())
        .user_property("version".to_string(), "5.0".to_string())
        .user_property("priority".to_string(), "high".to_string());

    assert!(packet.has_properties());
    if let Some(props) = &packet.properties {
        assert!(!props.is_empty());
        assert_eq!(props.payload_format_indicator, Some(PAYLOAD_FORMAT_INDICATOR_UTF8));
        assert_eq!(props.message_expiry_interval, Some(3600));
        assert_eq!(props.topic_alias, Some(123));
        assert_eq!(props.response_topic, Some("response/topic".to_string()));
        assert_eq!(props.correlation_data, Some(Bytes::from("corr_data")));
        assert_eq!(props.subscription_identifier, Some(456));
        assert_eq!(props.content_type, Some("application/json".to_string()));
        assert_eq!(props.user_properties.len(), 2);
        assert_eq!(props.user_properties.get("version"), Some(&"5.0".to_string()));
        assert_eq!(props.user_properties.get("priority"), Some(&"high".to_string()));
    }
}

#[test]
fn types_test_message_creation() {
    let payload = Bytes::from("Test message");
    let message = Message {
        topic: "test/topic".to_string(),
        payload: payload.clone(),
        qos: 1,
        retain: false,
        dup: false,
        packet_id: Some(123),
    };

    assert_eq!(message.topic, "test/topic");
    assert_eq!(message.payload, payload);
    assert_eq!(message.qos, 1);
    assert_eq!(message.retain, false);
    assert_eq!(message.dup, false);
    assert_eq!(message.packet_id, Some(123));
}

#[test]
fn types_test_message_qos0_no_packet_id() {
    let payload = Bytes::from("QoS 0 message");
    let message = Message {
        topic: "test/qos0".to_string(),
        payload: payload.clone(),
        qos: 0,
        retain: false,
        dup: false,
        packet_id: None,
    };

    assert_eq!(message.qos, 0);
    assert_eq!(message.packet_id, None);
}

#[test]
fn types_test_topic_filter_creation() {
    let topic_filter = TopicFilter {
        topic: "test/+/wildcard".to_string(),
        qos: 2,
        no_local: true,
        retain_as_published: true,
        retain_handling: 2,
    };

    assert_eq!(topic_filter.topic, "test/+/wildcard");
    assert_eq!(topic_filter.qos, 2);
    assert_eq!(topic_filter.no_local, true);
    assert_eq!(topic_filter.retain_as_published, true);
    assert_eq!(topic_filter.retain_handling, 2);
}

#[test]
fn types_test_packet_creation() {
    let header = PacketHeader {
        packet_type: PacketType::Publish,
        dup: false,
        qos: 1,
        retain: false,
        remaining_length: 50,
    };

    let payload = PacketPayload::Publish(PublishPacket {
        topic_name: "test/topic".to_string(),
        packet_id: Some(123),
        payload: Bytes::from("Hello"),
        properties: None,
    });

    let packet = Packet {
        header: header.clone(),
        payload: payload.clone(),
    };

    assert_eq!(packet.header.packet_type, PacketType::Publish);
    assert_eq!(packet.header.qos, 1);
    assert_eq!(packet.header.remaining_length, 50);
    
    if let PacketPayload::Publish(publish) = packet.payload {
        assert_eq!(publish.topic_name, "test/topic");
        assert_eq!(publish.packet_id, Some(123));
    } else {
        panic!("Expected Publish payload");
    }
}

#[test]
fn types_test_packet_clone() {
    let header = PacketHeader {
        packet_type: PacketType::Subscribe,
        dup: false,
        qos: 1,
        retain: false,
        remaining_length: 100,
    };

    let payload = PacketPayload::Subscribe(SubscribePacket {
        packet_id: 456,
        topic_filters: vec![TopicFilter {
            topic: "test/topic".to_string(),
            qos: 1,
            no_local: false,
            retain_as_published: false,
            retain_handling: 0,
        }],
        properties: None,
    });

    let packet = Packet { header, payload };
    let cloned_packet = packet.clone();

    assert_eq!(packet.header.packet_type, cloned_packet.header.packet_type);
    assert_eq!(packet.header.qos, cloned_packet.header.qos);
}

#[test]
fn types_test_edge_cases() {
    // Test with empty strings
    let connect_packet = ConnectPacket {
        protocol_name: "".to_string(),
        protocol_version: 0,
        clean_session: false,
        will_flag: false,
        will_qos: 0,
        will_retain: false,
        password_flag: false,
        username_flag: false,
        keep_alive: 0,
        client_id: "".to_string(),
        will_topic: None,
        will_message: None,
        username: None,
        password: None,
        properties: None,
    };

    assert_eq!(connect_packet.protocol_name, "");
    assert_eq!(connect_packet.client_id, "");
    assert_eq!(connect_packet.keep_alive, 0);

    // Test with maximum values
    let header = PacketHeader {
        packet_type: PacketType::Publish,
        dup: true,
        qos: 2,
        retain: true,
        remaining_length: usize::MAX,
    };

    assert_eq!(header.dup, true);
    assert_eq!(header.qos, 2);
    assert_eq!(header.retain, true);
    assert_eq!(header.remaining_length, usize::MAX);
}

#[test]
fn types_test_properties_optional_fields() {
    // Test properties with all None values
    let properties = ConnectProperties {
        session_expiry_interval: None,
        receive_maximum: None,
        max_packet_size: None,
        topic_alias_maximum: None,
        request_response_information: None,
        request_problem_information: None,
        user_properties: StringMap::new(),
        authentication_method: None,
        authentication_data: None,
    };

    assert_eq!(properties.session_expiry_interval, None);
    assert_eq!(properties.receive_maximum, None);
    assert_eq!(properties.user_properties.len(), 0);
    assert_eq!(properties.authentication_method, None);
}

#[test]
fn connect_test_connect_return_code_from_u8() {
    assert_eq!(ConnectReturnCode::from_u8(0), Some(ConnectReturnCode::Accepted));
    assert_eq!(ConnectReturnCode::from_u8(1), Some(ConnectReturnCode::UnacceptableProtocolVersion));
    assert_eq!(ConnectReturnCode::from_u8(2), Some(ConnectReturnCode::IdentifierRejected));
    assert_eq!(ConnectReturnCode::from_u8(3), Some(ConnectReturnCode::ServerUnavailable));
    assert_eq!(ConnectReturnCode::from_u8(4), Some(ConnectReturnCode::BadUsernameOrPassword));
    assert_eq!(ConnectReturnCode::from_u8(5), Some(ConnectReturnCode::NotAuthorized));
    assert_eq!(ConnectReturnCode::from_u8(128), Some(ConnectReturnCode::MalformedPacket));
    assert_eq!(ConnectReturnCode::from_u8(130), Some(ConnectReturnCode::ProtocolError));
    assert_eq!(ConnectReturnCode::from_u8(131), Some(ConnectReturnCode::ImplementationSpecificError));
    assert_eq!(ConnectReturnCode::from_u8(132), Some(ConnectReturnCode::UnsupportedProtocolVersion));
    assert_eq!(ConnectReturnCode::from_u8(133), Some(ConnectReturnCode::ClientIdentifierNotValid));
    assert_eq!(ConnectReturnCode::from_u8(134), Some(ConnectReturnCode::BadUsernameOrPasswordV5));
    assert_eq!(ConnectReturnCode::from_u8(135), Some(ConnectReturnCode::NotAuthorizedV5));
    assert_eq!(ConnectReturnCode::from_u8(136), Some(ConnectReturnCode::ServerUnavailableV5));
    assert_eq!(ConnectReturnCode::from_u8(137), Some(ConnectReturnCode::ServerBusy));
    assert_eq!(ConnectReturnCode::from_u8(138), Some(ConnectReturnCode::Banned));
    assert_eq!(ConnectReturnCode::from_u8(140), Some(ConnectReturnCode::BadAuthenticationMethod));
    assert_eq!(ConnectReturnCode::from_u8(144), Some(ConnectReturnCode::TopicNameInvalid));
    assert_eq!(ConnectReturnCode::from_u8(149), Some(ConnectReturnCode::PacketTooLarge));
    assert_eq!(ConnectReturnCode::from_u8(151), Some(ConnectReturnCode::QuotaExceeded));
    assert_eq!(ConnectReturnCode::from_u8(153), Some(ConnectReturnCode::PayloadFormatInvalid));
    assert_eq!(ConnectReturnCode::from_u8(154), Some(ConnectReturnCode::RetainNotSupported));
    assert_eq!(ConnectReturnCode::from_u8(155), Some(ConnectReturnCode::QoSNotSupported));
    assert_eq!(ConnectReturnCode::from_u8(156), Some(ConnectReturnCode::UseAnotherServer));
    assert_eq!(ConnectReturnCode::from_u8(157), Some(ConnectReturnCode::ServerMoved));
    assert_eq!(ConnectReturnCode::from_u8(159), Some(ConnectReturnCode::ConnectionRateExceeded));
    assert_eq!(ConnectReturnCode::from_u8(6), None);
    assert_eq!(ConnectReturnCode::from_u8(255), None);
}

#[test]
fn connect_test_connect_return_code_values() {
    assert_eq!(ConnectReturnCode::Accepted.to_u8(), 0);
    assert_eq!(ConnectReturnCode::UnacceptableProtocolVersion.to_u8(), 1);
    assert_eq!(ConnectReturnCode::IdentifierRejected.to_u8(), 2);
    assert_eq!(ConnectReturnCode::ServerUnavailable.to_u8(), 3);
    assert_eq!(ConnectReturnCode::BadUsernameOrPassword.to_u8(), 4);
    assert_eq!(ConnectReturnCode::NotAuthorized.to_u8(), 5);
    assert_eq!(ConnectReturnCode::MalformedPacket.to_u8(), 128);
    assert_eq!(ConnectReturnCode::ProtocolError.to_u8(), 130);
    assert_eq!(ConnectReturnCode::ImplementationSpecificError.to_u8(), 131);
    assert_eq!(ConnectReturnCode::UnsupportedProtocolVersion.to_u8(), 132);
    assert_eq!(ConnectReturnCode::ClientIdentifierNotValid.to_u8(), 133);
    assert_eq!(ConnectReturnCode::BadUsernameOrPasswordV5.to_u8(), 134);
    assert_eq!(ConnectReturnCode::NotAuthorizedV5.to_u8(), 135);
    assert_eq!(ConnectReturnCode::ServerUnavailableV5.to_u8(), 136);
    assert_eq!(ConnectReturnCode::ServerBusy.to_u8(), 137);
    assert_eq!(ConnectReturnCode::Banned.to_u8(), 138);
    assert_eq!(ConnectReturnCode::BadAuthenticationMethod.to_u8(), 140);
    assert_eq!(ConnectReturnCode::TopicNameInvalid.to_u8(), 144);
    assert_eq!(ConnectReturnCode::PacketTooLarge.to_u8(), 149);
    assert_eq!(ConnectReturnCode::QuotaExceeded.to_u8(), 151);
    assert_eq!(ConnectReturnCode::PayloadFormatInvalid.to_u8(), 153);
    assert_eq!(ConnectReturnCode::RetainNotSupported.to_u8(), 154);
    assert_eq!(ConnectReturnCode::QoSNotSupported.to_u8(), 155);
    assert_eq!(ConnectReturnCode::UseAnotherServer.to_u8(), 156);
    assert_eq!(ConnectReturnCode::ServerMoved.to_u8(), 157);
    assert_eq!(ConnectReturnCode::ConnectionRateExceeded.to_u8(), 159);
}

#[test]
fn connect_test_connect_packet_creation() {
    let connect_packet = ConnectPacket {
        protocol_name: "MQTT".to_string(),
        protocol_version: 4,
        clean_session: true,
        will_flag: false,
        will_qos: 0,
        will_retain: false,
        password_flag: false,
        username_flag: false,
        keep_alive: 60,
        client_id: "test_client".to_string(),
        will_topic: None,
        will_message: None,
        username: None,
        password: None,
        properties: None,
    };

    assert_eq!(connect_packet.protocol_name, "MQTT");
    assert_eq!(connect_packet.protocol_version, 4);
    assert_eq!(connect_packet.clean_session, true);
    assert_eq!(connect_packet.will_flag, false);
    assert_eq!(connect_packet.will_qos, 0);
    assert_eq!(connect_packet.will_retain, false);
    assert_eq!(connect_packet.password_flag, false);
    assert_eq!(connect_packet.username_flag, false);
    assert_eq!(connect_packet.keep_alive, 60);
    assert_eq!(connect_packet.client_id, "test_client");
    assert_eq!(connect_packet.will_topic, None);
    assert_eq!(connect_packet.will_message, None);
    assert_eq!(connect_packet.username, None);
    assert_eq!(connect_packet.password, None);
    assert!(connect_packet.properties.is_none());
}

#[test]
fn connect_test_connect_packet_with_will() {
    let will_message = Bytes::from("test will message");
    let connect_packet = ConnectPacket {
        protocol_name: "MQTT".to_string(),
        protocol_version: 5,
        clean_session: false,
        will_flag: true,
        will_qos: 1,
        will_retain: true,
        password_flag: true,
        username_flag: true,
        keep_alive: 120,
        client_id: "will_client".to_string(),
        will_topic: Some("test/will".to_string()),
        will_message: Some(will_message.clone()),
        username: Some("test_user".to_string()),
        password: Some("test_pass".to_string()),
        properties: None,
    };

    assert_eq!(connect_packet.will_flag, true);
    assert_eq!(connect_packet.will_topic, Some("test/will".to_string()));
    assert_eq!(connect_packet.will_message, Some(will_message));
    assert_eq!(connect_packet.username, Some("test_user".to_string()));
    assert_eq!(connect_packet.password, Some("test_pass".to_string()));
}

#[test]
fn connect_test_conn_ack_packet() {
    let conn_ack = ConnAckPacket {
        session_present: true,
        return_code: ConnectReturnCode::Accepted,
        properties: None,
    };

    assert_eq!(conn_ack.session_present, true);
    assert_eq!(conn_ack.return_code, ConnectReturnCode::Accepted);
    assert!(conn_ack.properties.is_none());
}

#[test]
fn test_conn_ack_packet_builder() {
    let conn_ack = ConnAckPacket::new(ConnectReturnCode::Accepted)
        .session_present(true)
        .return_code(ConnectReturnCode::Accepted);

    assert_eq!(conn_ack.session_present, true);
    assert_eq!(conn_ack.return_code, ConnectReturnCode::Accepted);
    assert!(conn_ack.is_success());
    assert!(!conn_ack.is_error());
    assert_eq!(conn_ack.error_message(), None);
}

#[test]
fn test_conn_ack_packet_error() {
    let conn_ack = ConnAckPacket::new(ConnectReturnCode::BadUsernameOrPassword);
    
    assert!(!conn_ack.is_success());
    assert!(conn_ack.is_error());
    assert_eq!(conn_ack.error_message(), Some("Bad username or password"));
}

#[test]
fn connect_test_disconnect_packet() {
    let disconnect = DisconnectPacket {
        reason_code: Some(0),
        properties: None,
    };

    assert_eq!(disconnect.reason_code, Some(0));
    assert!(disconnect.properties.is_none());
}

#[test]
fn connect_test_auth_packet() {
    let auth = AuthPacket {
        reason_code: 0,
        properties: None,
    };

    assert_eq!(auth.reason_code, 0);
    assert!(auth.properties.is_none());
}

#[test]
fn connect_packet_test_edge_cases() {
    // Test with empty strings
    let connect_packet = ConnectPacket {
        protocol_name: "".to_string(),
        protocol_version: 0,
        clean_session: false,
        will_flag: false,
        will_qos: 0,
        will_retain: false,
        password_flag: false,
        username_flag: false,
        keep_alive: 0,
        client_id: "".to_string(),
        will_topic: None,
        will_message: None,
        username: None,
        password: None,
        properties: None,
    };

    assert_eq!(connect_packet.protocol_name, "");
    assert_eq!(connect_packet.client_id, "");
    assert_eq!(connect_packet.keep_alive, 0);
}

#[test]
fn message_test_message_creation() {
    let payload = Bytes::from("Test message");
    let message = Message {
        topic: "test/topic".to_string(),
        payload: payload.clone(),
        qos: 1,
        retain: false,
        dup: false,
        packet_id: Some(123),
    };

    assert_eq!(message.topic, "test/topic");
    assert_eq!(message.payload, payload);
    assert_eq!(message.qos, 1);
    assert_eq!(message.retain, false);
    assert_eq!(message.dup, false);
    assert_eq!(message.packet_id, Some(123));
}

#[test]
fn message_test_message_qos0_no_packet_id() {
    let payload = Bytes::from("QoS 0 message");
    let message = Message {
        topic: "test/qos0".to_string(),
        payload: payload.clone(),
        qos: 0,
        retain: false,
        dup: false,
        packet_id: None,
    };

    assert_eq!(message.qos, 0);
    assert_eq!(message.packet_id, None);
}

#[test]
fn test_message_edge_cases() {
    // Test with empty topic and payload
    let empty_payload = Bytes::from("");
    let message = Message {
        topic: "".to_string(),
        payload: empty_payload.clone(),
        qos: 0,
        retain: false,
        dup: false,
        packet_id: None,
    };

    assert_eq!(message.topic, "");
    assert_eq!(message.payload, empty_payload);
    assert_eq!(message.qos, 0);
    assert_eq!(message.retain, false);
    assert_eq!(message.dup, false);
    assert_eq!(message.packet_id, None);

    // Test with maximum values
    let max_message = Message {
        topic: "test/max".to_string(),
        payload: Bytes::from("max payload"),
        qos: 2,
        retain: true,
        dup: true,
        packet_id: Some(u16::MAX),
    };

    assert_eq!(max_message.qos, 2);
    assert_eq!(max_message.retain, true);
    assert_eq!(max_message.dup, true);
    assert_eq!(max_message.packet_id, Some(u16::MAX));
}

#[test]
fn test_message_clone() {
    let original = Message {
        topic: "test/clone".to_string(),
        payload: Bytes::from("clone test"),
        qos: 1,
        retain: false,
        dup: false,
        packet_id: Some(456),
    };

    let cloned = original.clone();

    assert_eq!(original.topic, cloned.topic);
    assert_eq!(original.payload, cloned.payload);
    assert_eq!(original.qos, cloned.qos);
    assert_eq!(original.retain, cloned.retain);
    assert_eq!(original.dup, cloned.dup);
    assert_eq!(original.packet_id, cloned.packet_id);
}

#[test]
fn test_message_different_qos_levels() {
    // Test QoS 0
    let qos0_message = Message {
        topic: "test/qos0".to_string(),
        payload: Bytes::from("QoS 0"),
        qos: 0,
        retain: false,
        dup: false,
        packet_id: None,
    };
    assert_eq!(qos0_message.qos, 0);
    assert_eq!(qos0_message.packet_id, None);

    // Test QoS 1
    let qos1_message = Message {
        topic: "test/qos1".to_string(),
        payload: Bytes::from("QoS 1"),
        qos: 1,
        retain: false,
        dup: false,
        packet_id: Some(123),
    };
    assert_eq!(qos1_message.qos, 1);
    assert_eq!(qos1_message.packet_id, Some(123));

    // Test QoS 2
    let qos2_message = Message {
        topic: "test/qos2".to_string(),
        payload: Bytes::from("QoS 2"),
        qos: 2,
        retain: false,
        dup: false,
        packet_id: Some(456),
    };
    assert_eq!(qos2_message.qos, 2);
    assert_eq!(qos2_message.packet_id, Some(456));
}

#[test]
fn packet_test_packet_type_from_u8() {
    assert_eq!(PacketType::from_u8(1), Some(PacketType::Connect));
    assert_eq!(PacketType::from_u8(2), Some(PacketType::ConnAck));
    assert_eq!(PacketType::from_u8(3), Some(PacketType::Publish));
    assert_eq!(PacketType::from_u8(4), Some(PacketType::PubAck));
    assert_eq!(PacketType::from_u8(5), Some(PacketType::PubRec));
    assert_eq!(PacketType::from_u8(6), Some(PacketType::PubRel));
    assert_eq!(PacketType::from_u8(7), Some(PacketType::PubComp));
    assert_eq!(PacketType::from_u8(8), Some(PacketType::Subscribe));
    assert_eq!(PacketType::from_u8(9), Some(PacketType::SubAck));
    assert_eq!(PacketType::from_u8(10), Some(PacketType::Unsubscribe));
    assert_eq!(PacketType::from_u8(11), Some(PacketType::UnsubAck));
    assert_eq!(PacketType::from_u8(12), Some(PacketType::PingReq));
    assert_eq!(PacketType::from_u8(13), Some(PacketType::PingResp));
    assert_eq!(PacketType::from_u8(14), Some(PacketType::Disconnect));
    assert_eq!(PacketType::from_u8(15), Some(PacketType::Auth));
    assert_eq!(PacketType::from_u8(0), None);
    assert_eq!(PacketType::from_u8(16), None);
    assert_eq!(PacketType::from_u8(255), None);
}

#[test]
fn packet_test_packet_type_values() {
    assert_eq!(PacketType::Connect.to_u8(), 1);
    assert_eq!(PacketType::ConnAck.to_u8(), 2);
    assert_eq!(PacketType::Publish.to_u8(), 3);
    assert_eq!(PacketType::PubAck.to_u8(), 4);
    assert_eq!(PacketType::PubRec.to_u8(), 5);
    assert_eq!(PacketType::PubRel.to_u8(), 6);
    assert_eq!(PacketType::PubComp.to_u8(), 7);
    assert_eq!(PacketType::Subscribe.to_u8(), 8);
    assert_eq!(PacketType::SubAck.to_u8(), 9);
    assert_eq!(PacketType::Unsubscribe.to_u8(), 10);
    assert_eq!(PacketType::UnsubAck.to_u8(), 11);
    assert_eq!(PacketType::PingReq.to_u8(), 12);
    assert_eq!(PacketType::PingResp.to_u8(), 13);
    assert_eq!(PacketType::Disconnect.to_u8(), 14);
    assert_eq!(PacketType::Auth.to_u8(), 15);
}

#[test]
fn packet_test_packet_header_creation() {
    let header = PacketHeader {
        packet_type: PacketType::Publish,
        dup: false,
        qos: 1,
        retain: false,
        remaining_length: 100,
    };

    assert_eq!(header.packet_type, PacketType::Publish);
    assert_eq!(header.dup, false);
    assert_eq!(header.qos, 1);
    assert_eq!(header.retain, false);
    assert_eq!(header.remaining_length, 100);
}

#[test]
fn packet_test_packet_header_clone() {
    let header = PacketHeader {
        packet_type: PacketType::Subscribe,
        dup: false,
        qos: 1,
        retain: false,
        remaining_length: 200,
    };

    let cloned_header = header.clone();
    assert_eq!(header.packet_type, cloned_header.packet_type);
    assert_eq!(header.dup, cloned_header.dup);
    assert_eq!(header.qos, cloned_header.qos);
    assert_eq!(header.retain, cloned_header.retain);
    assert_eq!(header.remaining_length, cloned_header.remaining_length);
}

#[test]
fn packet_test_packet_creation() {
    let header = PacketHeader {
        packet_type: PacketType::Publish,
        dup: false,
        qos: 1,
        retain: false,
        remaining_length: 50,
    };

    let payload = PacketPayload::Publish(PublishPacket {
        topic_name: "test/topic".to_string(),
        packet_id: Some(123),
        payload: bytes::Bytes::from("Hello"),
        properties: None,
    });

    let packet = Packet {
        header: header.clone(),
        payload: payload.clone(),
    };

    assert_eq!(packet.header.packet_type, PacketType::Publish);
    assert_eq!(packet.header.qos, 1);
    assert_eq!(packet.header.remaining_length, 50);
    
    if let PacketPayload::Publish(publish) = packet.payload {
        assert_eq!(publish.topic_name, "test/topic");
        assert_eq!(publish.packet_id, Some(123));
    } else {
        panic!("Expected Publish payload");
    }
}

#[test]
fn packet_test_packet_clone() {
    let header = PacketHeader {
        packet_type: PacketType::Subscribe,
        dup: false,
        qos: 1,
        retain: false,
        remaining_length: 100,
    };

    let payload = PacketPayload::Subscribe(SubscribePacket {
        packet_id: 456,
        topic_filters: vec![TopicFilter {
            topic: "test/topic".to_string(),
            qos: 1,
            no_local: false,
            retain_as_published: false,
            retain_handling: 0,
        }],
        properties: None,
    });

    let packet = Packet { header, payload };
    let cloned_packet = packet.clone();

    assert_eq!(packet.header.packet_type, cloned_packet.header.packet_type);
    assert_eq!(packet.header.qos, cloned_packet.header.qos);
}

#[test]
fn packet_test_edge_cases() {
    // Test with maximum values
    let header = PacketHeader {
        packet_type: PacketType::Publish,
        dup: true,
        qos: 2,
        retain: true,
        remaining_length: usize::MAX,
    };

    assert_eq!(header.dup, true);
    assert_eq!(header.qos, 2);
    assert_eq!(header.retain, true);
    assert_eq!(header.remaining_length, usize::MAX);
}

#[test]
fn properties_test_connect_properties() {
    let mut user_properties = StringMap::new();
    user_properties.insert("key1".to_string(), "value1".to_string());
    user_properties.insert("key2".to_string(), "value2".to_string());

    let properties = ConnectProperties {
        session_expiry_interval: Some(3600),
        receive_maximum: Some(100),
        max_packet_size: Some(1024),
        topic_alias_maximum: Some(10),
        request_response_information: Some(true),
        request_problem_information: Some(false),
        user_properties: user_properties.clone(),
        authentication_method: Some("PLAIN".to_string()),
        authentication_data: Some(Bytes::from("auth_data")),
    };

    assert_eq!(properties.session_expiry_interval, Some(3600));
    assert_eq!(properties.receive_maximum, Some(100));
    assert_eq!(properties.max_packet_size, Some(1024));
    assert_eq!(properties.topic_alias_maximum, Some(10));
    assert_eq!(properties.request_response_information, Some(true));
    assert_eq!(properties.request_problem_information, Some(false));
    assert_eq!(properties.user_properties.len(), 2);
    assert_eq!(properties.authentication_method, Some("PLAIN".to_string()));
    assert_eq!(properties.authentication_data, Some(Bytes::from("auth_data")));
}

#[test]
fn test_conn_ack_properties() {
    let mut props = ConnAckProperties::new();
    assert!(props.is_empty());

    props = props
        .session_expiry_interval(3600)
        .receive_maximum(100)
        .max_qos(2)
        .retain_available(true)
        .max_packet_size(1024)
        .assigned_client_identifier("client123".to_string())
        .topic_alias_maximum(10)
        .reason_string("Success".to_string())
        .user_property("key1".to_string(), "value1".to_string())
        .user_property("key2".to_string(), "value2".to_string());

    assert!(!props.is_empty());
    assert_eq!(props.session_expiry_interval, Some(3600));
    assert_eq!(props.receive_maximum, Some(100));
    assert_eq!(props.max_qos, Some(2));
    assert_eq!(props.retain_available, Some(true));
    assert_eq!(props.max_packet_size, Some(1024));
    assert_eq!(props.assigned_client_identifier, Some("client123".to_string()));
    assert_eq!(props.topic_alias_maximum, Some(10));
    assert_eq!(props.reason_string, Some("Success".to_string()));
    assert_eq!(props.user_properties.len(), 2);
}

#[test]
fn properties_test_publish_properties() {
    let mut props = PublishProperties::new();
    assert!(props.is_empty());

    props = props
        .payload_format_indicator(PAYLOAD_FORMAT_INDICATOR_UTF8)
        .message_expiry_interval(3600)
        .topic_alias(123)
        .response_topic("response/topic".to_string())
        .correlation_data(Bytes::from("correlation_data"))
        .subscription_identifier(456)
        .content_type("application/json".to_string())
        .user_property("key1".to_string(), "value1".to_string())
        .user_property("key2".to_string(), "value2".to_string());

    assert!(!props.is_empty());
    assert_eq!(props.payload_format_indicator, Some(PAYLOAD_FORMAT_INDICATOR_UTF8));
    assert_eq!(props.message_expiry_interval, Some(3600));
    assert_eq!(props.topic_alias, Some(123));
    assert_eq!(props.response_topic, Some("response/topic".to_string()));
    assert_eq!(props.correlation_data, Some(Bytes::from("correlation_data")));
    assert_eq!(props.subscription_identifier, Some(456));
    assert_eq!(props.content_type, Some("application/json".to_string()));
    assert_eq!(props.user_properties.len(), 2);
    assert_eq!(props.user_properties.get("key1"), Some(&"value1".to_string()));
    assert_eq!(props.user_properties.get("key2"), Some(&"value2".to_string()));

    // Test payload format indicator methods
    assert_eq!(props.payload_format_indicator_str(), Some("UTF-8"));
    assert!(props.is_utf8_payload());
    assert!(!props.is_unspecified_payload());

    // Test with unspecified payload format
    let mut props2 = PublishProperties::new();
    props2 = props2.payload_format_indicator(PAYLOAD_FORMAT_INDICATOR_UNSPECIFIED);
    assert_eq!(props2.payload_format_indicator_str(), Some("Unspecified"));
    assert!(props2.is_unspecified_payload());
    assert!(!props2.is_utf8_payload());
}

#[test]
fn properties_test_publish_properties_edge_cases() {
    // Test empty properties
    let props = PublishProperties::new();
    assert!(props.is_empty());
    assert_eq!(props.payload_format_indicator_str(), None);
    assert!(!props.is_utf8_payload());
    assert!(!props.is_unspecified_payload());

    // Test with invalid payload format indicator
    let mut props2 = PublishProperties::new();
    props2 = props2.payload_format_indicator(0xFF);
    assert_eq!(props2.payload_format_indicator_str(), None);
    assert!(!props2.is_utf8_payload());
    assert!(!props2.is_unspecified_payload());

    // Test user properties with different keys
    let mut props3 = PublishProperties::new();
    props3 = props3
        .user_property("empty_key".to_string(), "".to_string())
        .user_property("key".to_string(), "".to_string())
        .user_property("empty_value".to_string(), "value".to_string());
    
    assert_eq!(props3.user_properties.len(), 3);
    assert_eq!(props3.user_properties.get("empty_key"), Some(&"".to_string()));
    assert_eq!(props3.user_properties.get("key"), Some(&"".to_string()));
    assert_eq!(props3.user_properties.get("empty_value"), Some(&"value".to_string()));
}

#[test]
fn properties_test_properties_optional_fields() {
    // Test properties with all None values
    let properties = ConnectProperties {
        session_expiry_interval: None,
        receive_maximum: None,
        max_packet_size: None,
        topic_alias_maximum: None,
        request_response_information: None,
        request_problem_information: None,
        user_properties: StringMap::new(),
        authentication_method: None,
        authentication_data: None,
    };

    assert_eq!(properties.session_expiry_interval, None);
    assert_eq!(properties.receive_maximum, None);
    assert_eq!(properties.user_properties.len(), 0);
    assert_eq!(properties.authentication_method, None);
}

#[test]
fn publish_test_publish_packet() {
    let payload = Bytes::from("Hello MQTT!");
    let publish_packet = PublishPacket {
        topic_name: "test/topic".to_string(),
        packet_id: Some(123),
        payload: payload.clone(),
        properties: None,
    };

    assert_eq!(publish_packet.topic_name, "test/topic");
    assert_eq!(publish_packet.packet_id, Some(123));
    assert_eq!(publish_packet.payload, payload);
    assert!(publish_packet.properties.is_none());
}

#[test]
fn publish_test_publish_packet_qos0() {
    let payload = Bytes::from("QoS 0 message");
    let publish_packet = PublishPacket {
        topic_name: "test/qos0".to_string(),
        packet_id: None, // QoS 0 doesn't need packet ID
        payload: payload.clone(),
        properties: None,
    };

    assert_eq!(publish_packet.packet_id, None);
    assert_eq!(publish_packet.payload, payload);
}

#[test]
fn publish_test_pub_ack_packet() {
    let pub_ack = PubAckPacket {
        packet_id: 456,
        reason_code: Some(0),
        properties: None,
    };

    assert_eq!(pub_ack.packet_id, 456);
    assert_eq!(pub_ack.reason_code, Some(0));
    assert!(pub_ack.properties.is_none());
}

#[test]
fn publish_test_publish_packet_with_properties() {
    let payload = Bytes::from("Hello, MQTT v5!");
    let mut packet = PublishPacket::new("test/topic".to_string(), payload.clone());

    // Test basic creation
    assert_eq!(packet.topic_name, "test/topic");
    assert_eq!(packet.payload, payload);
    assert!(packet.packet_id.is_none());
    assert!(packet.properties.is_none());
    assert!(!packet.has_properties());
    assert_eq!(packet.qos(), 0);

    // Test with QoS and packet ID
    let packet_with_qos = PublishPacket::with_qos("test/topic2".to_string(), payload.clone(), 1, 123);
    assert_eq!(packet_with_qos.topic_name, "test/topic2");
    assert_eq!(packet_with_qos.packet_id, Some(123));
    assert_eq!(packet_with_qos.qos(), 1);

    // Test setting properties using builder pattern
    packet = packet
        .payload_format_indicator(PAYLOAD_FORMAT_INDICATOR_UTF8)
        .message_expiry_interval(7200)
        .topic_alias(456)
        .response_topic("response/topic".to_string())
        .correlation_data(Bytes::from("corr_data"))
        .subscription_identifier(789)
        .content_type("text/plain".to_string())
        .user_property("app".to_string(), "test".to_string());

    assert!(packet.has_properties());
    if let Some(props) = &packet.properties {
        assert_eq!(props.payload_format_indicator, Some(PAYLOAD_FORMAT_INDICATOR_UTF8));
        assert_eq!(props.message_expiry_interval, Some(7200));
        assert_eq!(props.topic_alias, Some(456));
        assert_eq!(props.response_topic, Some("response/topic".to_string()));
        assert_eq!(props.correlation_data, Some(Bytes::from("corr_data")));
        assert_eq!(props.subscription_identifier, Some(789));
        assert_eq!(props.content_type, Some("text/plain".to_string()));
        assert_eq!(props.user_properties.get("app"), Some(&"test".to_string()));
    }

    // Test setting packet ID
    packet = packet.packet_id(999);
    assert_eq!(packet.packet_id, Some(999));
    assert_eq!(packet.qos(), 1);
}

#[test]
fn publish_test_publish_packet_properties_builder() {
    let payload = Bytes::from("Test payload");
    let packet = PublishPacket::new("test/topic".to_string(), payload)
        .payload_format_indicator(PAYLOAD_FORMAT_INDICATOR_UTF8)
        .message_expiry_interval(3600)
        .topic_alias(123)
        .response_topic("response/topic".to_string())
        .correlation_data(Bytes::from("corr_data"))
        .subscription_identifier(456)
        .content_type("application/json".to_string())
        .user_property("version".to_string(), "5.0".to_string())
        .user_property("priority".to_string(), "high".to_string());

    assert!(packet.has_properties());
    if let Some(props) = &packet.properties {
        assert!(!props.is_empty());
        assert_eq!(props.payload_format_indicator, Some(PAYLOAD_FORMAT_INDICATOR_UTF8));
        assert_eq!(props.message_expiry_interval, Some(3600));
        assert_eq!(props.topic_alias, Some(123));
        assert_eq!(props.response_topic, Some("response/topic".to_string()));
        assert_eq!(props.correlation_data, Some(Bytes::from("corr_data")));
        assert_eq!(props.subscription_identifier, Some(456));
        assert_eq!(props.content_type, Some("application/json".to_string()));
        assert_eq!(props.user_properties.len(), 2);
        assert_eq!(props.user_properties.get("version"), Some(&"5.0".to_string()));
        assert_eq!(props.user_properties.get("priority"), Some(&"high".to_string()));
    }
}

#[test]
fn test_publish_packet_edge_cases() {
    // Test with empty topic and payload
    let empty_payload = Bytes::from("");
    let packet = PublishPacket::new("".to_string(), empty_payload.clone());
    
    assert_eq!(packet.topic_name, "");
    assert_eq!(packet.payload, empty_payload);
    assert_eq!(packet.qos(), 0);
    assert!(!packet.has_properties());

    // Test with maximum packet ID
    let packet = packet.packet_id(u16::MAX);
    assert_eq!(packet.packet_id, Some(u16::MAX));
    assert_eq!(packet.qos(), 1);
}

#[test]
fn subscribe_test_subscribe_packet() {
    let topic_filters = vec![
        TopicFilter {
            topic: "test/topic1".to_string(),
            qos: 0,
            no_local: false,
            retain_as_published: false,
            retain_handling: 0,
        },
        TopicFilter {
            topic: "test/topic2".to_string(),
            qos: 1,
            no_local: true,
            retain_as_published: true,
            retain_handling: 1,
        },
    ];

    let subscribe_packet = SubscribePacket {
        packet_id: 789,
        topic_filters: topic_filters.clone(),
        properties: None,
    };

    assert_eq!(subscribe_packet.packet_id, 789);
    assert_eq!(subscribe_packet.topic_filters.len(), 2);
    assert_eq!(subscribe_packet.topic_filters[0].topic, "test/topic1");
    assert_eq!(subscribe_packet.topic_filters[0].qos, 0);
    assert_eq!(subscribe_packet.topic_filters[1].topic, "test/topic2");
    assert_eq!(subscribe_packet.topic_filters[1].qos, 1);
}

#[test]
fn subscribe_test_topic_filter_creation() {
    let topic_filter = TopicFilter {
        topic: "test/+/wildcard".to_string(),
        qos: 2,
        no_local: true,
        retain_as_published: true,
        retain_handling: 2,
    };

    assert_eq!(topic_filter.topic, "test/+/wildcard");
    assert_eq!(topic_filter.qos, 2);
    assert_eq!(topic_filter.no_local, true);
    assert_eq!(topic_filter.retain_as_published, true);
    assert_eq!(topic_filter.retain_handling, 2);
}

#[test]
fn subscribe_test_sub_ack_packet() {
    let return_codes = vec![0, 1, 2, 128]; // 128 = failure
    let sub_ack = SubAckPacket {
        packet_id: 101,
        return_codes: return_codes.clone(),
        properties: None,
    };

    assert_eq!(sub_ack.packet_id, 101);
    assert_eq!(sub_ack.return_codes, return_codes);
    assert!(sub_ack.properties.is_none());
}

#[test]
fn subscribe_test_unsubscribe_packet() {
    let topic_filters = vec!["test/topic1".to_string(), "test/topic2".to_string()];
    let unsubscribe_packet = UnsubscribePacket {
        packet_id: 202,
        topic_filters: topic_filters.clone(),
        properties: None,
    };

    assert_eq!(unsubscribe_packet.packet_id, 202);
    assert_eq!(unsubscribe_packet.topic_filters, topic_filters);
    assert!(unsubscribe_packet.properties.is_none());
}

#[test]
fn subscribe_test_unsub_ack_packet() {
    let reason_codes = vec![0, 17]; // 0 = success, 17 = no subscription existed
    let unsub_ack = UnsubAckPacket {
        packet_id: 303,
        reason_codes: reason_codes.clone(),
        properties: None,
    };

    assert_eq!(unsub_ack.packet_id, 303);
    assert_eq!(unsub_ack.reason_codes, reason_codes);
    assert!(unsub_ack.properties.is_none());
}

#[test]
fn subscribe_test_edge_cases() {
    // Test with empty topic filters
    let empty_subscribe = SubscribePacket {
        packet_id: 0,
        topic_filters: vec![],
        properties: None,
    };

    assert_eq!(empty_subscribe.packet_id, 0);
    assert_eq!(empty_subscribe.topic_filters.len(), 0);

    // Test with maximum packet ID
    let max_subscribe = SubscribePacket {
        packet_id: u16::MAX,
        topic_filters: vec![TopicFilter {
            topic: "test/topic".to_string(),
            qos: 0,
            no_local: false,
            retain_as_published: false,
            retain_handling: 0,
        }],
        properties: None,
    };

    assert_eq!(max_subscribe.packet_id, u16::MAX);
    assert_eq!(max_subscribe.topic_filters.len(), 1);

    // Test with empty topic string
    let empty_topic_filter = TopicFilter {
        topic: "".to_string(),
        qos: 0,
        no_local: false,
        retain_as_published: false,
        retain_handling: 0,
    };

    assert_eq!(empty_topic_filter.topic, "");
    assert_eq!(empty_topic_filter.qos, 0);
}

#[test]
fn test_topic_filter_qos_values() {
    // Test all valid QoS values
    for qos in 0..=2 {
        let filter = TopicFilter {
            topic: format!("test/qos{}", qos),
            qos,
            no_local: false,
            retain_as_published: false,
            retain_handling: 0,
        };
        assert_eq!(filter.qos, qos);
    }

    // Test retain handling values
    for handling in 0..=2 {
        let filter = TopicFilter {
            topic: "test/handling".to_string(),
            qos: 0,
            no_local: false,
            retain_as_published: false,
            retain_handling: handling,
        };
        assert_eq!(filter.retain_handling, handling);
    }
}
