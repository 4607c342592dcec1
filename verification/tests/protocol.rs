use std::time::Duration;
use bytes::Bytes;
use dumq_mqtt::protocol::{
    QoS, RetainFlag, DupFlag, ReasonCode, PublishOptions, SubscribeOptions, ConnectOptions,
    MQTT_PROTOCOL_NAME_V3_1, MQTT_PROTOCOL_NAME_V3_1_1, MQTT_PROTOCOL_NAME_V5_0,
    MQTT_PROTOCOL_VERSION_V3_1, MQTT_PROTOCOL_VERSION_V3_1_1, MQTT_PROTOCOL_VERSION_V5_0,
    MAX_PACKET_SIZE, MAX_TOPIC_LENGTH, MAX_CLIENT_ID_LENGTH, DEFAULT_KEEP_ALIVE, MAX_KEEP_ALIVE,
    default_connect_timeout, default_read_timeout, default_write_timeout,
};
use dumq_mqtt::types::TopicFilter;

#[test]
fn protocol_test_qos_from_u8() {
        assert_eq!(QoS::from_u8(0), Some(QoS::AtMostOnce));
        assert_eq!(QoS::from_u8(1), Some(QoS::AtLeastOnce));
        assert_eq!(QoS::from_u8(2), Some(QoS::ExactlyOnce));
        assert_eq!(QoS::from_u8(3), None);
        assert_eq!(QoS::from_u8(255), None);
    }

#[test]
fn protocol_test_qos_values() {
        assert_eq!(QoS::AtMostOnce as u8, 0);
        assert_eq!(QoS::AtLeastOnce as u8, 1);
        assert_eq!(QoS::ExactlyOnce as u8, 2);
    }

#[test]
fn protocol_test_qos_clone() {
        let qos = QoS::AtLeastOnce;
        let cloned_qos = qos;
        assert_eq!(qos, cloned_qos);
    }

#[test]
fn protocol_test_retain_flag() {
        assert_eq!(RetainFlag::NotRetained as u8, 0);
        assert_eq!(RetainFlag::Retained as u8, 1);
    }

#[test]
fn protocol_test_dup_flag() {
        assert_eq!(DupFlag::NotDuplicate as u8, 0);
        assert_eq!(DupFlag::Duplicate as u8, 1);
    }

#[test]
fn protocol_test_connect_options_new() {
        let options = ConnectOptions::new("test_client");
        
        assert_eq!(options.client_id, "test_client");
        assert_eq!(options.clean_session, true);
        assert_eq!(options.keep_alive, Duration::from_secs(60));
        assert_eq!(options.username, None);
        assert_eq!(options.password, None);
        assert_eq!(options.will_topic, None);
        assert_eq!(options.will_message, None);
        assert_eq!(options.will_qos, QoS::AtMostOnce);
        assert_eq!(options.will_retain, false);
        assert_eq!(options.protocol_version, 4);
        assert!(options.properties.is_none());
    }

#[test]
fn protocol_test_connect_options_builder_pattern() {
        let options = ConnectOptions::new("test_client")
            .clean_session(false)
            .keep_alive(Duration::from_secs(120))
            .username("test_user")
            .password("test_pass")
            .will("test/will", b"will message", QoS::AtLeastOnce, true)
            .protocol_version(5)
            .session_expiry_interval(3600)
            .receive_maximum(100)
            .max_packet_size(1_000_000)
            .topic_alias_maximum(20)
            .request_response_information(true)
            .request_problem_information(false)
            .user_property("test_key", "test_value")
            .authentication_method("test_method")
            .authentication_data(b"test_data");

        assert_eq!(options.client_id, "test_client");
        assert_eq!(options.clean_session, false);
        assert_eq!(options.keep_alive, Duration::from_secs(120));
        assert_eq!(options.username, Some("test_user".to_string()));
        assert_eq!(options.password, Some("test_pass".to_string()));
        assert_eq!(options.will_topic, Some("test/will".to_string()));
        assert_eq!(options.will_message, Some(b"will message".to_vec()));
        assert_eq!(options.will_qos, QoS::AtLeastOnce);
        assert_eq!(options.will_retain, true);
        assert_eq!(options.protocol_version, 5);
        assert_eq!(options.properties.as_ref().unwrap().session_expiry_interval, Some(3600));
        assert_eq!(options.properties.as_ref().unwrap().receive_maximum, Some(100));
        assert_eq!(options.properties.as_ref().unwrap().max_packet_size, Some(1_000_000));
        assert_eq!(options.properties.as_ref().unwrap().topic_alias_maximum, Some(20));
        assert_eq!(options.properties.as_ref().unwrap().request_response_information, Some(true));
        assert_eq!(options.properties.as_ref().unwrap().request_problem_information, Some(false));
        assert_eq!(options.properties.as_ref().unwrap().user_properties.get("test_key"), Some(&"test_value".to_string()));
        assert_eq!(options.properties.as_ref().unwrap().authentication_method, Some("test_method".to_string()));
        assert_eq!(options.properties.as_ref().unwrap().authentication_data.as_ref().unwrap(), &Bytes::from(&b"test_data"[..]));
    }

#[test]
fn protocol_test_connect_options_clone() {
        let options = ConnectOptions::new("test_client")
            .username("test_user")
            .password("test_pass");
        
        let cloned_options = options.clone();
        assert_eq!(options.client_id, cloned_options.client_id);
        assert_eq!(options.username, cloned_options.username);
        assert_eq!(options.password, cloned_options.password);
        assert_eq!(options.properties.is_some(), cloned_options.properties.is_some());
    }

#[test]
fn protocol_test_connect_options_with_empty_strings() {
        let options = ConnectOptions::new("")
            .username("")
            .password("");

        assert_eq!(options.client_id, "");
        assert_eq!(options.username, Some("".to_string()));
        assert_eq!(options.password, Some("".to_string()));
        assert!(options.properties.is_none());
    }

#[test]
fn protocol_test_connect_options_with_unicode() {
        let options = ConnectOptions::new("한국어_클라이언트")
            .username("한국어_사용자")
            .password("한국어_비밀번호");

        assert_eq!(options.client_id, "한국어_클라이언트");
        assert_eq!(options.username, Some("한국어_사용자".to_string()));
        assert_eq!(options.password, Some("한국어_비밀번호".to_string()));
        assert!(options.properties.is_none());
    }

#[test]
fn protocol_test_subscribe_options() {
        let topic_filters = vec![
            TopicFilter {
                topic: "test/topic1".to_string(),
                qos: 0,
                no_local: false,
                retain_as_published: false,
                retain_handling: 0,
            },
            TopicFilter {
                topic: "test/topic2".to_string(),
                qos: 1,
                no_local: true,
                retain_as_published: true,
                retain_handling: 1,
            },
        ];

        let options = SubscribeOptions::new(topic_filters.clone(), 123);

        assert_eq!(options.topic_filters.len(), 2);
        assert_eq!(options.topic_filters[0].topic, "test/topic1");
        assert_eq!(options.topic_filters[0].qos, 0);
        assert_eq!(options.topic_filters[1].topic, "test/topic2");
        assert_eq!(options.topic_filters[1].qos, 1);
        assert_eq!(options.packet_id, 123);
    }

#[test]
fn protocol_test_subscribe_options_clone() {
        let topic_filters = vec![TopicFilter {
            topic: "test/topic".to_string(),
            qos: 1,
            no_local: false,
            retain_as_published: false,
            retain_handling: 0,
        }];

        let options = SubscribeOptions::new(topic_filters, 456);
        let cloned_options = options.clone();

        assert_eq!(options.packet_id, cloned_options.packet_id);
        assert_eq!(options.topic_filters.len(), cloned_options.topic_filters.len());
    }

#[test]
fn protocol_test_publish_options_new() {
        let options = PublishOptions::new("test/topic", b"Hello MQTT!");

        assert_eq!(options.topic, "test/topic");
        assert_eq!(options.payload, b"Hello MQTT!");
        assert_eq!(options.qos, QoS::AtMostOnce);
        assert_eq!(options.retain, false);
        assert_eq!(options.dup, false);
        assert_eq!(options.packet_id, None);
    }

#[test]
fn protocol_test_publish_options_builder_pattern() {
        let options = PublishOptions::new("test/topic", b"Hello MQTT!")
            .qos(QoS::AtLeastOnce)
            .retain(true)
            .dup(true)
            .packet_id(789);

        assert_eq!(options.topic, "test/topic");
        assert_eq!(options.payload, b"Hello MQTT!");
        assert_eq!(options.qos, QoS::AtLeastOnce);
        assert_eq!(options.retain, true);
        assert_eq!(options.dup, true);
        assert_eq!(options.packet_id, Some(789));
    }

#[test]
fn protocol_test_publish_options_clone() {
        let options = PublishOptions::new("test/topic", b"Hello MQTT!")
            .qos(QoS::ExactlyOnce)
            .retain(true);

        let cloned_options = options.clone();
        assert_eq!(options.topic, cloned_options.topic);
        assert_eq!(options.payload, cloned_options.payload);
        assert_eq!(options.qos, cloned_options.qos);
        assert_eq!(options.retain, cloned_options.retain);
    }

#[test]
fn protocol_test_publish_options_with_empty_payload() {
        let options = PublishOptions::new("test/topic", b"");

        assert_eq!(options.topic, "test/topic");
        assert_eq!(options.payload, b"");
        assert_eq!(options.qos, QoS::AtMostOnce);
    }

#[test]
fn protocol_test_protocol_constants() {
        assert_eq!(MQTT_PROTOCOL_NAME_V3_1, "MQIsdp");
        assert_eq!(MQTT_PROTOCOL_NAME_V3_1_1, "MQTT");
        assert_eq!(MQTT_PROTOCOL_NAME_V5_0, "MQTT");
        
        assert_eq!(MQTT_PROTOCOL_VERSION_V3_1, 3);
        assert_eq!(MQTT_PROTOCOL_VERSION_V3_1_1, 4);
        assert_eq!(MQTT_PROTOCOL_VERSION_V5_0, 5);
        
        assert_eq!(MAX_PACKET_SIZE, 268_435_455);
        assert_eq!(MAX_TOPIC_LENGTH, 65535);
        assert_eq!(MAX_CLIENT_ID_LENGTH, 23);
        assert_eq!(DEFAULT_KEEP_ALIVE, 60);
        assert_eq!(MAX_KEEP_ALIVE, 65535);
        
        assert_eq!(default_connect_timeout(), Duration::from_secs(30));
        assert_eq!(default_read_timeout(), Duration::from_secs(30));
        assert_eq!(default_write_timeout(), Duration::from_secs(30));
    }

#[test]
fn protocol_test_reason_code_from_u8() {
        assert_eq!(ReasonCode::from_u8(0), Some(ReasonCode::Success));
        assert_eq!(ReasonCode::from_u8(1), Some(ReasonCode::GrantedQoS1));
        assert_eq!(ReasonCode::from_u8(2), Some(ReasonCode::GrantedQoS2));
        assert_eq!(ReasonCode::from_u8(4), Some(ReasonCode::DisconnectWithWillMessage));
        assert_eq!(ReasonCode::from_u8(16), Some(ReasonCode::NoMatchingSubscribers));
        assert_eq!(ReasonCode::from_u8(17), Some(ReasonCode::NoSubscriptionExisted));
        assert_eq!(ReasonCode::from_u8(24), Some(ReasonCode::ContinueAuthentication));
        assert_eq!(ReasonCode::from_u8(25), Some(ReasonCode::ReAuthenticate));
        assert_eq!(ReasonCode::from_u8(128), Some(ReasonCode::UnspecifiedError));
        assert_eq!(ReasonCode::from_u8(129), Some(ReasonCode::MalformedPacket));
        assert_eq!(ReasonCode::from_u8(130), Some(ReasonCode::ProtocolError));
        assert_eq!(ReasonCode::from_u8(131), Some(ReasonCode::ImplementationSpecificError));
        assert_eq!(ReasonCode::from_u8(132), Some(ReasonCode::UnsupportedProtocolVersion));
        assert_eq!(ReasonCode::from_u8(133), Some(ReasonCode::ClientIdentifierNotValid));
        assert_eq!(ReasonCode::from_u8(134), Some(ReasonCode::BadUserNameOrPassword));
        assert_eq!(ReasonCode::from_u8(135), Some(ReasonCode::NotAuthorized));
        assert_eq!(ReasonCode::from_u8(136), Some(ReasonCode::ServerUnavailable));
        assert_eq!(ReasonCode::from_u8(137), Some(ReasonCode::ServerBusy));
        assert_eq!(ReasonCode::from_u8(138), Some(ReasonCode::Banned));
        assert_eq!(ReasonCode::from_u8(139), Some(ReasonCode::ServerShuttingDown));
        assert_eq!(ReasonCode::from_u8(140), Some(ReasonCode::BadAuthenticationMethod));
        assert_eq!(ReasonCode::from_u8(141), Some(ReasonCode::KeepAliveTimeout));
        assert_eq!(ReasonCode::from_u8(142), Some(ReasonCode::SessionTakenOver));
        assert_eq!(ReasonCode::from_u8(143), Some(ReasonCode::TopicFilterInvalid));
        assert_eq!(ReasonCode::from_u8(144), Some(ReasonCode::TopicNameInvalid));
        assert_eq!(ReasonCode::from_u8(145), Some(ReasonCode::PacketIdentifierInUse));
        assert_eq!(ReasonCode::from_u8(146), Some(ReasonCode::PacketIdentifierNotFound));
        assert_eq!(ReasonCode::from_u8(147), Some(ReasonCode::ReceiveMaximumExceeded));
        assert_eq!(ReasonCode::from_u8(148), Some(ReasonCode::TopicAliasInvalid));
        assert_eq!(ReasonCode::from_u8(149), Some(ReasonCode::PacketTooLarge));
        assert_eq!(ReasonCode::from_u8(150), Some(ReasonCode::MessageRateTooHigh));
        assert_eq!(ReasonCode::from_u8(151), Some(ReasonCode::QuotaExceeded));
        assert_eq!(ReasonCode::from_u8(152), Some(ReasonCode::AdministrativeAction));
        assert_eq!(ReasonCode::from_u8(153), Some(ReasonCode::PayloadFormatInvalid));
        assert_eq!(ReasonCode::from_u8(154), Some(ReasonCode::RetainNotSupported));
        assert_eq!(ReasonCode::from_u8(155), Some(ReasonCode::QoSNotSupported));
        assert_eq!(ReasonCode::from_u8(156), Some(ReasonCode::UseAnotherServer));
        assert_eq!(ReasonCode::from_u8(157), Some(ReasonCode::ServerMoved));
        assert_eq!(ReasonCode::from_u8(158), Some(ReasonCode::SharedSubscriptionsNotSupported));
        assert_eq!(ReasonCode::from_u8(159), Some(ReasonCode::ConnectionRateExceeded));
        assert_eq!(ReasonCode::from_u8(160), Some(ReasonCode::MaximumConnectTime));
        assert_eq!(ReasonCode::from_u8(161), Some(ReasonCode::SubscriptionIdentifiersNotSupported));
        assert_eq!(ReasonCode::from_u8(162), Some(ReasonCode::WildcardSubscriptionsNotSupported));
        
        // Test invalid values
        assert_eq!(ReasonCode::from_u8(3), None);
        assert_eq!(ReasonCode::from_u8(15), None);
        assert_eq!(ReasonCode::from_u8(23), None);
        assert_eq!(ReasonCode::from_u8(26), None);
        assert_eq!(ReasonCode::from_u8(127), None);
        assert_eq!(ReasonCode::from_u8(163), None);
        assert_eq!(ReasonCode::from_u8(255), None);
    }

#[test]
fn protocol_test_reason_code_values() {
        assert_eq!(ReasonCode::Success.to_u8(), 0);
        assert_eq!(ReasonCode::GrantedQoS1.to_u8(), 1);
        assert_eq!(ReasonCode::GrantedQoS2.to_u8(), 2);
        assert_eq!(ReasonCode::DisconnectWithWillMessage.to_u8(), 4);
        assert_eq!(ReasonCode::NoMatchingSubscribers.to_u8(), 16);
        assert_eq!(ReasonCode::NoSubscriptionExisted.to_u8(), 17);
        assert_eq!(ReasonCode::ContinueAuthentication.to_u8(), 24);
        assert_eq!(ReasonCode::ReAuthenticate.to_u8(), 25);
        assert_eq!(ReasonCode::UnspecifiedError.to_u8(), 128);
        assert_eq!(ReasonCode::MalformedPacket.to_u8(), 129);
        assert_eq!(ReasonCode::ProtocolError.to_u8(), 130);
        assert_eq!(ReasonCode::ImplementationSpecificError.to_u8(), 131);
        assert_eq!(ReasonCode::UnsupportedProtocolVersion.to_u8(), 132);
        assert_eq!(ReasonCode::ClientIdentifierNotValid.to_u8(), 133);
        assert_eq!(ReasonCode::BadUserNameOrPassword.to_u8(), 134);
        assert_eq!(ReasonCode::NotAuthorized.to_u8(), 135);
        assert_eq!(ReasonCode::ServerUnavailable.to_u8(), 136);
        assert_eq!(ReasonCode::ServerBusy.to_u8(), 137);
        assert_eq!(ReasonCode::Banned.to_u8(), 138);
        assert_eq!(ReasonCode::ServerShuttingDown.to_u8(), 139);
        assert_eq!(ReasonCode::BadAuthenticationMethod.to_u8(), 140);
        assert_eq!(ReasonCode::KeepAliveTimeout.to_u8(), 141);
        assert_eq!(ReasonCode::SessionTakenOver.to_u8(), 142);
        assert_eq!(ReasonCode::TopicFilterInvalid.to_u8(), 143);
        assert_eq!(ReasonCode::TopicNameInvalid.to_u8(), 144);
        assert_eq!(ReasonCode::PacketIdentifierInUse.to_u8(), 145);
        assert_eq!(ReasonCode::PacketIdentifierNotFound.to_u8(), 146);
        assert_eq!(ReasonCode::ReceiveMaximumExceeded.to_u8(), 147);
        assert_eq!(ReasonCode::TopicAliasInvalid.to_u8(), 148);
        assert_eq!(ReasonCode::PacketTooLarge.to_u8(), 149);
        assert_eq!(ReasonCode::MessageRateTooHigh.to_u8(), 150);
        assert_eq!(ReasonCode::QuotaExceeded.to_u8(), 151);
        assert_eq!(ReasonCode::AdministrativeAction.to_u8(), 152);
        assert_eq!(ReasonCode::PayloadFormatInvalid.to_u8(), 153);
        assert_eq!(ReasonCode::RetainNotSupported.to_u8(), 154);
        assert_eq!(ReasonCode::QoSNotSupported.to_u8(), 155);
        assert_eq!(ReasonCode::UseAnotherServer.to_u8(), 156);
        assert_eq!(ReasonCode::ServerMoved.to_u8(), 157);
        assert_eq!(ReasonCode::SharedSubscriptionsNotSupported.to_u8(), 158);
        assert_eq!(ReasonCode::ConnectionRateExceeded.to_u8(), 159);
        assert_eq!(ReasonCode::MaximumConnectTime.to_u8(), 160);
        assert_eq!(ReasonCode::SubscriptionIdentifiersNotSupported.to_u8(), 161);
        assert_eq!(ReasonCode::WildcardSubscriptionsNotSupported.to_u8(), 162);
    }

#[test]
fn protocol_test_reason_code_clone() {
        let reason_code = ReasonCode::Success;
        let cloned_reason_code = reason_code;
        assert_eq!(reason_code, cloned_reason_code);
    }

#[test]
fn protocol_test_edge_cases() {
        // Test with maximum values
        let options = ConnectOptions::new("test")
            .keep_alive(Duration::from_secs(u64::MAX))
            .protocol_version(u8::MAX);

        assert_eq!(options.keep_alive, Duration::from_secs(u64::MAX));
        assert_eq!(options.protocol_version, u8::MAX);

        // Test with minimum values
        let options = ConnectOptions::new("test")
            .keep_alive(Duration::from_secs(0))
            .protocol_version(0);

        assert_eq!(options.keep_alive, Duration::from_secs(0));
        assert_eq!(options.protocol_version, 0);
    }

#[test]
fn protocol_test_duration_conversions() {
        let options = ConnectOptions::new("test")
            .keep_alive(Duration::from_millis(50000)); // 50 seconds

        assert_eq!(options.keep_alive, Duration::from_secs(50));

        let options = ConnectOptions::new("test")
            .keep_alive(Duration::from_micros(60_000_000)); // 60 seconds

        assert_eq!(options.keep_alive, Duration::from_secs(60));
    }

#[test]
fn connect_test_connect_options_new() {
        let options = ConnectOptions::new("test_client");
        
        assert_eq!(options.client_id, "test_client");
        assert_eq!(options.clean_session, true);
        assert_eq!(options.keep_alive, Duration::from_secs(60));
        assert_eq!(options.username, None);
        assert_eq!(options.password, None);
        assert_eq!(options.will_topic, None);
        assert_eq!(options.will_message, None);
        assert_eq!(options.will_qos, QoS::AtMostOnce);
        assert_eq!(options.will_retain, false);
        assert_eq!(options.protocol_version, 4);
        assert!(options.properties.is_none());
    }

#[test]
fn connect_test_connect_options_builder_pattern() {
        let options = ConnectOptions::new("test_client")
            .clean_session(false)
            .keep_alive(Duration::from_secs(120))
            .username("test_user")
            .password("test_pass")
            .will("test/will", b"will message", QoS::AtLeastOnce, true)
            .protocol_version(5)
            .session_expiry_interval(3600)
            .receive_maximum(100)
            .max_packet_size(1_000_000)
            .topic_alias_maximum(20)
            .request_response_information(true)
            .request_problem_information(false)
            .user_property("test_key", "test_value")
            .authentication_method("test_method")
            .authentication_data(b"test_data");

        assert_eq!(options.client_id, "test_client");
        assert_eq!(options.clean_session, false);
        assert_eq!(options.keep_alive, Duration::from_secs(120));
        assert_eq!(options.username, Some("test_user".to_string()));
        assert_eq!(options.password, Some("test_pass".to_string()));
        assert_eq!(options.will_topic, Some("test/will".to_string()));
        assert_eq!(options.will_message, Some(b"will message".to_vec()));
        assert_eq!(options.will_qos, QoS::AtLeastOnce);
        assert_eq!(options.will_retain, true);
        assert_eq!(options.protocol_version, 5);
        assert_eq!(options.properties.as_ref().unwrap().session_expiry_interval, Some(3600));
        assert_eq!(options.properties.as_ref().unwrap().receive_maximum, Some(100));
        assert_eq!(options.properties.as_ref().unwrap().max_packet_size, Some(1_000_000));
        assert_eq!(options.properties.as_ref().unwrap().topic_alias_maximum, Some(20));
        assert_eq!(options.properties.as_ref().unwrap().request_response_information, Some(true));
        assert_eq!(options.properties.as_ref().unwrap().request_problem_information, Some(false));
        assert_eq!(options.properties.as_ref().unwrap().user_properties.get("test_key"), Some(&"test_value".to_string()));
        assert_eq!(options.properties.as_ref().unwrap().authentication_method, Some("test_method".to_string()));
        assert_eq!(options.properties.as_ref().unwrap().authentication_data.as_ref().unwrap(), &Bytes::from(&b"test_data"[..]));
    }

#[test]
fn connect_test_connect_options_clone() {
        let options = ConnectOptions::new("test_client")
            .username("test_user")
            .password("test_pass");
        
        let cloned_options = options.clone();
        assert_eq!(options.client_id, cloned_options.client_id);
        assert_eq!(options.username, cloned_options.username);
        assert_eq!(options.password, cloned_options.password);
        assert_eq!(options.properties.is_some(), cloned_options.properties.is_some());
    }

#[test]
fn connect_test_connect_options_with_empty_strings() {
        let options = ConnectOptions::new("")
            .username("")
            .password("");

        assert_eq!(options.client_id, "");
        assert_eq!(options.username, Some("".to_string()));
        assert_eq!(options.password, Some("".to_string()));
        assert!(options.properties.is_none());
    }

#[test]
fn connect_test_connect_options_with_unicode() {
        let options = ConnectOptions::new("한국어_클라이언트")
            .username("한국어_사용자")
            .password("한국어_비밀번호");

        assert_eq!(options.client_id, "한국어_클라이언트");
        assert_eq!(options.username, Some("한국어_사용자".to_string()));
        assert_eq!(options.password, Some("한국어_비밀번호".to_string()));
        assert!(options.properties.is_none());
    }

#[test]
fn connect_test_edge_cases() {
        // Test with maximum values
        let options = ConnectOptions::new("test")
            .keep_alive(Duration::from_secs(u64::MAX))
            .protocol_version(u8::MAX);

        assert_eq!(options.keep_alive, Duration::from_secs(u64::MAX));
        assert_eq!(options.protocol_version, u8::MAX);

        // Test with minimum values
        let options = ConnectOptions::new("test")
            .keep_alive(Duration::from_secs(0))
            .protocol_version(0);

        assert_eq!(options.keep_alive, Duration::from_secs(0));
        assert_eq!(options.protocol_version, 0);
    }

#[test]
fn connect_test_duration_conversions() {
        let options = ConnectOptions::new("test")
            .keep_alive(Duration::from_millis(50000)); // 50 seconds

        assert_eq!(options.keep_alive, Duration::from_secs(50));

        let options = ConnectOptions::new("test")
            .keep_alive(Duration::from_micros(60_000_000)); // 60 seconds

        assert_eq!(options.keep_alive, Duration::from_secs(60));
    }

#[test]
fn constants_test_protocol_constants() {
        assert_eq!(MQTT_PROTOCOL_NAME_V3_1, "MQIsdp");
        assert_eq!(MQTT_PROTOCOL_NAME_V3_1_1, "MQTT");
        assert_eq!(MQTT_PROTOCOL_NAME_V5_0, "MQTT");
        
        assert_eq!(MQTT_PROTOCOL_VERSION_V3_1, 3);
        assert_eq!(MQTT_PROTOCOL_VERSION_V3_1_1, 4);
        assert_eq!(MQTT_PROTOCOL_VERSION_V5_0, 5);
        
        assert_eq!(MAX_PACKET_SIZE, 268_435_455);
        assert_eq!(MAX_TOPIC_LENGTH, 65535);
        assert_eq!(MAX_CLIENT_ID_LENGTH, 23);
        assert_eq!(DEFAULT_KEEP_ALIVE, 60);
        assert_eq!(MAX_KEEP_ALIVE, 65535);
        
        assert_eq!(default_connect_timeout(), Duration::from_secs(30));
        assert_eq!(default_read_timeout(), Duration::from_secs(30));
        assert_eq!(default_write_timeout(), Duration::from_secs(30));
    }

#[test]
fn flags_test_retain_flag() {
        assert_eq!(RetainFlag::NotRetained as u8, 0);
        assert_eq!(RetainFlag::Retained as u8, 1);
    }

#[test]
fn flags_test_dup_flag() {
        assert_eq!(DupFlag::NotDuplicate as u8, 0);
        assert_eq!(DupFlag::Duplicate as u8, 1);
    }

#[test]
fn publish_test_publish_options_new() {
        let options = PublishOptions::new("test/topic", b"Hello MQTT!");

        assert_eq!(options.topic, "test/topic");
        assert_eq!(options.payload, b"Hello MQTT!");
        assert_eq!(options.qos, QoS::AtMostOnce);
        assert_eq!(options.retain, false);
        assert_eq!(options.dup, false);
        assert_eq!(options.packet_id, None);
    }

#[test]
fn publish_test_publish_options_builder_pattern() {
        let options = PublishOptions::new("test/topic", b"Hello MQTT!")
            .qos(QoS::AtLeastOnce)
            .retain(true)
            .dup(true)
            .packet_id(789);

        assert_eq!(options.topic, "test/topic");
        assert_eq!(options.payload, b"Hello MQTT!");
        assert_eq!(options.qos, QoS::AtLeastOnce);
        assert_eq!(options.retain, true);
        assert_eq!(options.dup, true);
        assert_eq!(options.packet_id, Some(789));
    }

#[test]
fn publish_test_publish_options_clone() {
        let options = PublishOptions::new("test/topic", b"Hello MQTT!")
            .qos(QoS::ExactlyOnce)
            .retain(true);

        let cloned_options = options.clone();
        assert_eq!(options.topic, cloned_options.topic);
        assert_eq!(options.payload, cloned_options.payload);
        assert_eq!(options.qos, cloned_options.qos);
        assert_eq!(options.retain, cloned_options.retain);
    }

#[test]
fn publish_test_publish_options_with_empty_payload() {
        let options = PublishOptions::new("test/topic", b"");

        assert_eq!(options.topic, "test/topic");
        assert_eq!(options.payload, b"");
        assert_eq!(options.qos, QoS::AtMostOnce);
    }

#[test]
fn qos_test_qos_from_u8() {
        assert_eq!(QoS::from_u8(0), Some(QoS::AtMostOnce));
        assert_eq!(QoS::from_u8(1), Some(QoS::AtLeastOnce));
        assert_eq!(QoS::from_u8(2), Some(QoS::ExactlyOnce));
        assert_eq!(QoS::from_u8(3), None);
        assert_eq!(QoS::from_u8(255), None);
    }

#[test]
fn qos_test_qos_values() {
        assert_eq!(QoS::AtMostOnce as u8, 0);
        assert_eq!(QoS::AtLeastOnce as u8, 1);
        assert_eq!(QoS::ExactlyOnce as u8, 2);
    }

#[test]
fn qos_test_qos_clone() {
        let qos = QoS::AtLeastOnce;
        let cloned_qos = qos;
        assert_eq!(qos, cloned_qos);
    }

#[test]
fn reason_codes_test_reason_code_from_u8() {
        assert_eq!(ReasonCode::from_u8(0), Some(ReasonCode::Success));
        assert_eq!(ReasonCode::from_u8(1), Some(ReasonCode::GrantedQoS1));
        assert_eq!(ReasonCode::from_u8(2), Some(ReasonCode::GrantedQoS2));
        assert_eq!(ReasonCode::from_u8(4), Some(ReasonCode::DisconnectWithWillMessage));
        assert_eq!(ReasonCode::from_u8(16), Some(ReasonCode::NoMatchingSubscribers));
        assert_eq!(ReasonCode::from_u8(17), Some(ReasonCode::NoSubscriptionExisted));
        assert_eq!(ReasonCode::from_u8(24), Some(ReasonCode::ContinueAuthentication));
        assert_eq!(ReasonCode::from_u8(25), Some(ReasonCode::ReAuthenticate));
        assert_eq!(ReasonCode::from_u8(128), Some(ReasonCode::UnspecifiedError));
        assert_eq!(ReasonCode::from_u8(129), Some(ReasonCode::MalformedPacket));
        assert_eq!(ReasonCode::from_u8(130), Some(ReasonCode::ProtocolError));
        assert_eq!(ReasonCode::from_u8(131), Some(ReasonCode::ImplementationSpecificError));
        assert_eq!(ReasonCode::from_u8(132), Some(ReasonCode::UnsupportedProtocolVersion));
        assert_eq!(ReasonCode::from_u8(133), Some(ReasonCode::ClientIdentifierNotValid));
        assert_eq!(ReasonCode::from_u8(134), Some(ReasonCode::BadUserNameOrPassword));
        assert_eq!(ReasonCode::from_u8(135), Some(ReasonCode::NotAuthorized));
        assert_eq!(ReasonCode::from_u8(136), Some(ReasonCode::ServerUnavailable));
        assert_eq!(ReasonCode::from_u8(137), Some(ReasonCode::ServerBusy));
        assert_eq!(ReasonCode::from_u8(138), Some(ReasonCode::Banned));
        assert_eq!(ReasonCode::from_u8(139), Some(ReasonCode::ServerShuttingDown));
        assert_eq!(ReasonCode::from_u8(140), Some(ReasonCode::BadAuthenticationMethod));
        assert_eq!(ReasonCode::from_u8(141), Some(ReasonCode::KeepAliveTimeout));
        assert_eq!(ReasonCode::from_u8(142), Some(ReasonCode::SessionTakenOver));
        assert_eq!(ReasonCode::from_u8(143), Some(ReasonCode::TopicFilterInvalid));
        assert_eq!(ReasonCode::from_u8(144), Some(ReasonCode::TopicNameInvalid));
        assert_eq!(ReasonCode::from_u8(145), Some(ReasonCode::PacketIdentifierInUse));
        assert_eq!(ReasonCode::from_u8(146), Some(ReasonCode::PacketIdentifierNotFound));
        assert_eq!(ReasonCode::from_u8(147), Some(ReasonCode::ReceiveMaximumExceeded));
        assert_eq!(ReasonCode::from_u8(148), Some(ReasonCode::TopicAliasInvalid));
        assert_eq!(ReasonCode::from_u8(149), Some(ReasonCode::PacketTooLarge));
        assert_eq!(ReasonCode::from_u8(150), Some(ReasonCode::MessageRateTooHigh));
        assert_eq!(ReasonCode::from_u8(151), Some(ReasonCode::QuotaExceeded));
        assert_eq!(ReasonCode::from_u8(152), Some(ReasonCode::AdministrativeAction));
        assert_eq!(ReasonCode::from_u8(153), Some(ReasonCode::PayloadFormatInvalid));
        assert_eq!(ReasonCode::from_u8(154), Some(ReasonCode::RetainNotSupported));
        assert_eq!(ReasonCode::from_u8(155), Some(ReasonCode::QoSNotSupported));
        assert_eq!(ReasonCode::from_u8(156), Some(ReasonCode::UseAnotherServer));
        assert_eq!(ReasonCode::from_u8(157), Some(ReasonCode::ServerMoved));
        assert_eq!(ReasonCode::from_u8(158), Some(ReasonCode::SharedSubscriptionsNotSupported));
        assert_eq!(ReasonCode::from_u8(159), Some(ReasonCode::ConnectionRateExceeded));
        assert_eq!(ReasonCode::from_u8(160), Some(ReasonCode::MaximumConnectTime));
        assert_eq!(ReasonCode::from_u8(161), Some(ReasonCode::SubscriptionIdentifiersNotSupported));
        assert_eq!(ReasonCode::from_u8(162), Some(ReasonCode::WildcardSubscriptionsNotSupported));
        
        // Test invalid values
        assert_eq!(ReasonCode::from_u8(3), None);
        assert_eq!(ReasonCode::from_u8(15), None);
        assert_eq!(ReasonCode::from_u8(23), None);
        assert_eq!(ReasonCode::from_u8(26), None);
        assert_eq!(ReasonCode::from_u8(127), None);
        assert_eq!(ReasonCode::from_u8(163), None);
        assert_eq!(ReasonCode::from_u8(255), None);
    }

#[test]
fn reason_codes_test_reason_code_values() {
        assert_eq!(ReasonCode::Success.to_u8(), 0);
        assert_eq!(ReasonCode::GrantedQoS1.to_u8(), 1);
        assert_eq!(ReasonCode::GrantedQoS2.to_u8(), 2);
        assert_eq!(ReasonCode::DisconnectWithWillMessage.to_u8(), 4);
        assert_eq!(ReasonCode::NoMatchingSubscribers.to_u8(), 16);
        assert_eq!(ReasonCode::NoSubscriptionExisted.to_u8(), 17);
        assert_eq!(ReasonCode::ContinueAuthentication.to_u8(), 24);
        assert_eq!(ReasonCode::ReAuthenticate.to_u8(), 25);
        assert_eq!(ReasonCode::UnspecifiedError.to_u8(), 128);
        assert_eq!(ReasonCode::MalformedPacket.to_u8(), 129);
        assert_eq!(ReasonCode::ProtocolError.to_u8(), 130);
        assert_eq!(ReasonCode::ImplementationSpecificError.to_u8(), 131);
        assert_eq!(ReasonCode::UnsupportedProtocolVersion.to_u8(), 132);
        assert_eq!(ReasonCode::ClientIdentifierNotValid.to_u8(), 133);
        assert_eq!(ReasonCode::BadUserNameOrPassword.to_u8(), 134);
        assert_eq!(ReasonCode::NotAuthorized.to_u8(), 135);
        assert_eq!(ReasonCode::ServerUnavailable.to_u8(), 136);
        assert_eq!(ReasonCode::ServerBusy.to_u8(), 137);
        assert_eq!(ReasonCode::Banned.to_u8(), 138);
        assert_eq!(ReasonCode::ServerShuttingDown.to_u8(), 139);
        assert_eq!(ReasonCode::BadAuthenticationMethod.to_u8(), 140);
        assert_eq!(ReasonCode::KeepAliveTimeout.to_u8(), 141);
        assert_eq!(ReasonCode::SessionTakenOver.to_u8(), 142);
        assert_eq!(ReasonCode::TopicFilterInvalid.to_u8(), 143);
        assert_eq!(ReasonCode::TopicNameInvalid.to_u8(), 144);
        assert_eq!(ReasonCode::PacketIdentifierInUse.to_u8(), 145);
        assert_eq!(ReasonCode::PacketIdentifierNotFound.to_u8(), 146);
        assert_eq!(ReasonCode::ReceiveMaximumExceeded.to_u8(), 147);
        assert_eq!(ReasonCode::TopicAliasInvalid.to_u8(), 148);
        assert_eq!(ReasonCode::PacketTooLarge.to_u8(), 149);
        assert_eq!(ReasonCode::MessageRateTooHigh.to_u8(), 150);
        assert_eq!(ReasonCode::QuotaExceeded.to_u8(), 151);
        assert_eq!(ReasonCode::AdministrativeAction.to_u8(), 152);
        assert_eq!(ReasonCode::PayloadFormatInvalid.to_u8(), 153);
        assert_eq!(ReasonCode::RetainNotSupported.to_u8(), 154);
        assert_eq!(ReasonCode::QoSNotSupported.to_u8(), 155);
        assert_eq!(ReasonCode::UseAnotherServer.to_u8(), 156);
        assert_eq!(ReasonCode::ServerMoved.to_u8(), 157);
        assert_eq!(ReasonCode::SharedSubscriptionsNotSupported.to_u8(), 158);
        assert_eq!(ReasonCode::ConnectionRateExceeded.to_u8(), 159);
        assert_eq!(ReasonCode::MaximumConnectTime.to_u8(), 160);
        assert_eq!(ReasonCode::SubscriptionIdentifiersNotSupported.to_u8(), 161);
        assert_eq!(ReasonCode::WildcardSubscriptionsNotSupported.to_u8(), 162);
    }

#[test]
fn reason_codes_test_reason_code_clone() {
        let reason_code = ReasonCode::Success;
        let cloned_reason_code = reason_code;
        assert_eq!(reason_code, cloned_reason_code);
    }

#[test]
fn subscribe_test_subscribe_options() {
        let topic_filters = vec![
            TopicFilter {
                topic: "test/topic1".to_string(),
                qos: 0,
                no_local: false,
                retain_as_published: false,
                retain_handling: 0,
            },
            TopicFilter {
                topic: "test/topic2".to_string(),
                qos: 1,
                no_local: true,
                retain_as_published: true,
                retain_handling: 1,
            },
        ];

        let options = SubscribeOptions::new(topic_filters.clone(), 123);

        assert_eq!(options.topic_filters.len(), 2);
        assert_eq!(options.topic_filters[0].topic, "test/topic1");
        assert_eq!(options.topic_filters[0].qos, 0);
        assert_eq!(options.topic_filters[1].topic, "test/topic2");
        assert_eq!(options.topic_filters[1].qos, 1);
        assert_eq!(options.packet_id, 123);
    }

#[test]
fn subscribe_test_subscribe_options_clone() {
        let topic_filters = vec![TopicFilter {
            topic: "test/topic".to_string(),
            qos: 1,
            no_local: false,
            retain_as_published: false,
            retain_handling: 0,
        }];

        let options = SubscribeOptions::new(topic_filters, 456);
        let cloned_options = options.clone();

        assert_eq!(options.packet_id, cloned_options.packet_id);
        assert_eq!(options.topic_filters.len(), cloned_options.topic_filters.len());
    }

