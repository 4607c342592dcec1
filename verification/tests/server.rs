use bytes::Bytes;
use dumq_mqtt::protocol::QoS;
use dumq_mqtt::server::{Authentication, MessageRouter, ServerConfig, Session, SessionManager, Subscription};
use dumq_mqtt::server::topic::topic_matches;
use dumq_mqtt::types::Message;

fn retained(topic: &str, payload: &'static str) -> Message {
    Message {
        topic: topic.to_string(),
        payload: Bytes::from(payload),
        qos: 0,
        retain: true,
        dup: false,
        packet_id: None,
    }
}

#[test]
fn server_test_server_config_new() {
    let config = ServerConfig::new("127.0.0.1:1883");
    assert_eq!(config.bind_addr, "127.0.0.1:1883");
    assert_eq!(config.max_connections, 1000);
    assert_eq!(config.max_packet_size, 1024 * 1024);
    assert_eq!(config.protocol_version, 4);
    assert_eq!(config.allow_anonymous, true);
    assert!(config.authentication.is_none());
}

#[test]
fn server_test_server_config_builder_pattern() {
    let config = ServerConfig::new("localhost:1883")
        .max_connections(500)
        .max_packet_size(512 * 1024)
        .protocol_version(5)
        .allow_anonymous(false);

    assert_eq!(config.max_connections, 500);
    assert_eq!(config.max_packet_size, 512 * 1024);
    assert_eq!(config.protocol_version, 5);
    assert_eq!(config.allow_anonymous, false);
}

#[test]
fn server_test_server_config_clone() {
    let config1 = ServerConfig::new("127.0.0.1:1883");
    let config2 = config1.clone();
    assert_eq!(config1.bind_addr, config2.bind_addr);
    assert_eq!(config1.max_connections, config2.max_connections);
}

#[test]
fn server_test_authentication_new() {
    let auth = Authentication::new();
    assert!(auth.users.is_empty());
}

#[test]
fn server_test_authentication_add_user() {
    let auth = Authentication::new()
        .add_user("user1", "pass1")
        .add_user("user2", "pass2");

    assert_eq!(auth.users.len(), 2);
    assert_eq!(auth.users.get("user1"), Some(&"pass1".to_string()));
    assert_eq!(auth.users.get("user2"), Some(&"pass2".to_string()));
}

#[test]
fn server_test_authentication_authenticate() {
    let auth = Authentication::new()
        .add_user("user1", "pass1");

    assert!(auth.authenticate("user1", "pass1"));
    assert!(!auth.authenticate("user1", "wrong_pass"));
    assert!(!auth.authenticate("unknown_user", "pass1"));
}

#[test]
fn server_test_authentication_clone() {
    let auth1 = Authentication::new().add_user("user1", "pass1");
    let auth2 = auth1.clone();
    assert_eq!(auth1.users.len(), auth2.users.len());
    assert_eq!(auth1.authenticate("user1", "pass1"), auth2.authenticate("user1", "pass1"));
}

#[test]
fn server_test_session_new() {
    let session = Session::new("client1".to_string(), Some("user1".to_string()), true);
    assert_eq!(session.client_id, "client1");
    assert_eq!(session.username, Some("user1".to_string()));
    assert_eq!(session.clean_session, true);
    assert!(session.subscriptions.is_empty());
    assert!(session.pending_messages.is_empty());
}

#[test]
fn server_test_session_add_subscription() {
    let mut session = Session::new("client1".to_string(), None, false);
    session.subscriptions.insert("topic1".to_string(), QoS::AtLeastOnce);
    session.subscriptions.insert("topic2".to_string(), QoS::ExactlyOnce);

    assert_eq!(session.subscriptions.len(), 2);
    assert_eq!(session.subscriptions.get("topic1"), Some(&QoS::AtLeastOnce));
    assert_eq!(session.subscriptions.get("topic2"), Some(&QoS::ExactlyOnce));
}

#[test]
fn server_test_session_clone() {
    let session1 = Session::new("client1".to_string(), Some("user1".to_string()), true);
    let session2 = session1.clone();
    assert_eq!(session1.client_id, session2.client_id);
    assert_eq!(session1.username, session2.username);
    assert_eq!(session1.clean_session, session2.clean_session);
}

#[test]
fn server_test_subscription_new() {
    let subscription = Subscription::new("client1".to_string(), "topic1".to_string(), QoS::AtMostOnce);
    assert_eq!(subscription.client_id, "client1");
    assert_eq!(subscription.topic_filter, "topic1");
    assert_eq!(subscription.qos, QoS::AtMostOnce);
}

#[test]
fn server_test_subscription_clone() {
    let sub1 = Subscription::new("client1".to_string(), "topic1".to_string(), QoS::AtLeastOnce);
    let sub2 = sub1.clone();
    assert_eq!(sub1.client_id, sub2.client_id);
    assert_eq!(sub1.topic_filter, sub2.topic_filter);
    assert_eq!(sub1.qos, sub2.qos);
}

#[test]
fn server_test_topic_matches() {
    // Exact match
    assert!(topic_matches("home/temp", "home/temp"));

    // Single level wildcard
    assert!(topic_matches("home/+/temp", "home/living/temp"));
    assert!(topic_matches("home/+/temp", "home/bedroom/temp"));
    assert!(!topic_matches("home/+/temp", "home/living/bedroom/temp"));

    // Multi-level wildcard
    assert!(topic_matches("home/#", "home/living/temp"));
    assert!(topic_matches("home/#", "home/bedroom/humidity"));
    assert!(topic_matches("home/#", "home"));
    assert!(!topic_matches("home/#", "office/temp"));

    // Edge cases
    assert!(topic_matches("#", "any/topic"));
    assert!(topic_matches("+", "single"));
    assert!(!topic_matches("home/+/temp", "home/temp"));
}

#[test]
fn server_test_qos_handling_in_subscription() {
    let subscription1 = Subscription::new("client1".to_string(), "topic1".to_string(), QoS::AtMostOnce);
    let subscription2 = Subscription::new("client2".to_string(), "topic2".to_string(), QoS::AtLeastOnce);
    let subscription3 = Subscription::new("client3".to_string(), "topic3".to_string(), QoS::ExactlyOnce);

    assert_eq!(subscription1.qos, QoS::AtMostOnce);
    assert_eq!(subscription2.qos, QoS::AtLeastOnce);
    assert_eq!(subscription3.qos, QoS::ExactlyOnce);
}

#[test]
fn server_test_qos_handling_in_session() {
    let mut session = Session::new("client1".to_string(), None, false);

    session.subscriptions.insert("topic1".to_string(), QoS::AtMostOnce);
    session.subscriptions.insert("topic2".to_string(), QoS::AtLeastOnce);
    session.subscriptions.insert("topic3".to_string(), QoS::ExactlyOnce);

    assert_eq!(session.subscriptions.len(), 3);
    assert_eq!(session.subscriptions.get("topic1"), Some(&QoS::AtMostOnce));
    assert_eq!(session.subscriptions.get("topic2"), Some(&QoS::AtLeastOnce));
    assert_eq!(session.subscriptions.get("topic3"), Some(&QoS::ExactlyOnce));
}

#[test]
fn server_test_qos_enum_values() {
    assert_eq!(QoS::AtMostOnce as u8, 0);
    assert_eq!(QoS::AtLeastOnce as u8, 1);
    assert_eq!(QoS::ExactlyOnce as u8, 2);
}

#[test]
fn server_test_qos_from_u8() {
    assert_eq!(QoS::from_u8(0), Some(QoS::AtMostOnce));
    assert_eq!(QoS::from_u8(1), Some(QoS::AtLeastOnce));
    assert_eq!(QoS::from_u8(2), Some(QoS::ExactlyOnce));
    assert_eq!(QoS::from_u8(3), None);
}

#[test]
fn test_retained_message_storage() {
    let mut router = MessageRouter::new();
    router.store_retained_message("test/topic".to_string(), retained("test/topic", "test message"));
    assert!(router.get_retained_message("test/topic").is_some());

    let stored_message = router.get_retained_message("test/topic").unwrap();
    assert_eq!(stored_message.topic, "test/topic");
    assert_eq!(stored_message.payload, Bytes::from("test message"));
    assert!(stored_message.retain);
}

#[test]
fn test_topic_matching_for_retained_messages() {
    assert!(topic_matches("test/+", "test/hello"));
    assert!(topic_matches("test/#", "test/hello/world"));
    assert!(topic_matches("test/topic", "test/topic"));
    assert!(!topic_matches("test/topic", "other/topic"));
}

#[test]
fn auth_test_authentication_new() {
    let auth = Authentication::new();
    assert!(auth.users.is_empty());
}

#[test]
fn auth_test_authentication_add_user() {
    let auth = Authentication::new()
        .add_user("user1", "pass1")
        .add_user("user2", "pass2");

    assert_eq!(auth.users.len(), 2);
    assert_eq!(auth.users.get("user1"), Some(&"pass1".to_string()));
    assert_eq!(auth.users.get("user2"), Some(&"pass2".to_string()));
}

#[test]
fn auth_test_authentication_authenticate() {
    let auth = Authentication::new()
        .add_user("user1", "pass1");

    assert!(auth.authenticate("user1", "pass1"));
    assert!(!auth.authenticate("user1", "wrong_pass"));
    assert!(!auth.authenticate("unknown_user", "pass1"));
}

#[test]
fn auth_test_authentication_clone() {
    let auth1 = Authentication::new().add_user("user1", "pass1");
    let auth2 = auth1.clone();
    assert_eq!(auth1.users.len(), auth2.users.len());
    assert_eq!(auth1.authenticate("user1", "pass1"), auth2.authenticate("user1", "pass1"));
}

#[test]
fn config_test_server_config_new() {
    let config = ServerConfig::new("127.0.0.1:1883");
    assert_eq!(config.bind_addr, "127.0.0.1:1883");
    assert_eq!(config.max_connections, 1000);
    assert_eq!(config.max_packet_size, 1024 * 1024);
    assert_eq!(config.protocol_version, 4);
    assert_eq!(config.allow_anonymous, true);
    assert!(config.authentication.is_none());
}

#[test]
fn config_test_server_config_builder_pattern() {
    let config = ServerConfig::new("localhost:1883")
        .max_connections(500)
        .max_packet_size(512 * 1024)
        .protocol_version(5)
        .allow_anonymous(false);

    assert_eq!(config.max_connections, 500);
    assert_eq!(config.max_packet_size, 512 * 1024);
    assert_eq!(config.protocol_version, 5);
    assert_eq!(config.allow_anonymous, false);
}

#[test]
fn config_test_server_config_clone() {
    let config1 = ServerConfig::new("127.0.0.1:1883");
    let config2 = config1.clone();
    assert_eq!(config1.bind_addr, config2.bind_addr);
    assert_eq!(config1.max_connections, config2.max_connections);
}

#[test]
fn connection_test_topic_matches() {
    assert!(MessageRouter::topic_matches("home/temp", "home/temp"));
    assert!(MessageRouter::topic_matches("home/+/temp", "home/living/temp"));
    assert!(MessageRouter::topic_matches("home/+/temp", "home/bedroom/temp"));
    assert!(!MessageRouter::topic_matches("home/+/temp", "home/living/bedroom/temp"));
    assert!(MessageRouter::topic_matches("home/#", "home/living/temp"));
    assert!(MessageRouter::topic_matches("home/#", "home/bedroom/humidity"));
    assert!(MessageRouter::topic_matches("home/#", "home"));
    assert!(!MessageRouter::topic_matches("home/#", "office/temp"));
    assert!(MessageRouter::topic_matches("#", "any/topic"));
    assert!(MessageRouter::topic_matches("+", "single"));
    assert!(!MessageRouter::topic_matches("home/+/temp", "home/temp"));
}

#[test]
fn connection_test_qos_handling_in_subscription() {
    let subscription1 = Subscription::new("client1".to_string(), "topic1".to_string(), QoS::AtMostOnce);
    let subscription2 = Subscription::new("client2".to_string(), "topic2".to_string(), QoS::AtLeastOnce);
    let subscription3 = Subscription::new("client3".to_string(), "topic3".to_string(), QoS::ExactlyOnce);

    assert_eq!(subscription1.qos, QoS::AtMostOnce);
    assert_eq!(subscription2.qos, QoS::AtLeastOnce);
    assert_eq!(subscription3.qos, QoS::ExactlyOnce);
}

#[test]
fn connection_test_qos_handling_in_session() {
    let mut session = Session::new("client1".to_string(), None, false);

    session.subscriptions.insert("topic1".to_string(), QoS::AtMostOnce);
    session.subscriptions.insert("topic2".to_string(), QoS::AtLeastOnce);
    session.subscriptions.insert("topic3".to_string(), QoS::ExactlyOnce);

    assert_eq!(session.subscriptions.len(), 3);
    assert_eq!(session.subscriptions.get("topic1"), Some(&QoS::AtMostOnce));
    assert_eq!(session.subscriptions.get("topic2"), Some(&QoS::AtLeastOnce));
    assert_eq!(session.subscriptions.get("topic3"), Some(&QoS::ExactlyOnce));
}

#[test]
fn connection_test_qos_enum_values() {
    assert_eq!(QoS::AtMostOnce as u8, 0);
    assert_eq!(QoS::AtLeastOnce as u8, 1);
    assert_eq!(QoS::ExactlyOnce as u8, 2);
}

#[test]
fn connection_test_qos_from_u8() {
    assert_eq!(QoS::from_u8(0), Some(QoS::AtMostOnce));
    assert_eq!(QoS::from_u8(1), Some(QoS::AtLeastOnce));
    assert_eq!(QoS::from_u8(2), Some(QoS::ExactlyOnce));
    assert_eq!(QoS::from_u8(3), None);
}

#[test]
fn router_test_topic_matches() {
    assert!(MessageRouter::topic_matches("home/temp", "home/temp"));
    assert!(MessageRouter::topic_matches("home/+/temp", "home/living/temp"));
    assert!(MessageRouter::topic_matches("home/+/temp", "home/bedroom/temp"));
    assert!(!MessageRouter::topic_matches("home/+/temp", "home/living/bedroom/temp"));
    assert!(MessageRouter::topic_matches("home/#", "home/living/temp"));
    assert!(MessageRouter::topic_matches("home/#", "home/bedroom/humidity"));
    assert!(MessageRouter::topic_matches("home/#", "home"));
    assert!(!MessageRouter::topic_matches("home/#", "office/temp"));
    assert!(MessageRouter::topic_matches("#", "any/topic"));
    assert!(MessageRouter::topic_matches("+", "single"));
    assert!(!MessageRouter::topic_matches("home/+/temp", "home/temp"));
}

#[test]
fn test_message_router() {
    let mut router = MessageRouter::new();

    let message = retained("test/topic", "test message");

    router.store_retained_message("test/topic".to_string(), message.clone());

    let retrieved = router.get_retained_message("test/topic");
    assert!(retrieved.is_some());
    let retrieved = retrieved.unwrap();
    assert_eq!(retrieved.topic, "test/topic");
    assert_eq!(retrieved.payload, Bytes::from("test message"));

    let matching = router.find_matching_topics("test/+");
    assert_eq!(matching.len(), 1);
    assert_eq!(matching[0], "test/topic");

    router.clear_retained_message("test/topic");
    let retrieved = router.get_retained_message("test/topic");
    assert!(retrieved.is_none());
}

#[test]
fn test_retained_messages_for_filters() {
    let mut router = MessageRouter::new();

    let message1 = retained("home/living/temp", "22.5");
    let message2 = retained("home/bedroom/temp", "20.0");

    router.store_retained_message("home/living/temp".to_string(), message1);
    router.store_retained_message("home/bedroom/temp".to_string(), message2);

    let topic_filters = vec!["home/+/temp".to_string()];
    let messages = router.get_retained_messages_for_filters(&topic_filters);
    assert_eq!(messages.len(), 2);

    let topic_filters = vec!["home/living/temp".to_string()];
    let messages = router.get_retained_messages_for_filters(&topic_filters);
    assert_eq!(messages.len(), 1);
    assert_eq!(messages[0].topic, "home/living/temp");
}

#[test]
fn session_test_session_new() {
    let session = Session::new("client1".to_string(), Some("user1".to_string()), true);
    assert_eq!(session.client_id, "client1");
    assert_eq!(session.username, Some("user1".to_string()));
    assert_eq!(session.clean_session, true);
    assert!(session.subscriptions.is_empty());
    assert!(session.pending_messages.is_empty());
}

#[test]
fn session_test_session_add_subscription() {
    let mut session = Session::new("client1".to_string(), None, false);
    session.subscriptions.insert("topic1".to_string(), QoS::AtLeastOnce);
    session.subscriptions.insert("topic2".to_string(), QoS::ExactlyOnce);

    assert_eq!(session.subscriptions.len(), 2);
    assert_eq!(session.subscriptions.get("topic1"), Some(&QoS::AtLeastOnce));
    assert_eq!(session.subscriptions.get("topic2"), Some(&QoS::ExactlyOnce));
}

#[test]
fn session_test_session_clone() {
    let session1 = Session::new("client1".to_string(), Some("user1".to_string()), true);
    let session2 = session1.clone();
    assert_eq!(session1.client_id, session2.client_id);
    assert_eq!(session1.username, session2.username);
    assert_eq!(session1.clean_session, session2.clean_session);
}

#[test]
fn session_test_subscription_new() {
    let subscription = Subscription::new("client1".to_string(), "topic1".to_string(), QoS::AtMostOnce);
    assert_eq!(subscription.client_id, "client1");
    assert_eq!(subscription.topic_filter, "topic1");
    assert_eq!(subscription.qos, QoS::AtMostOnce);
}

#[test]
fn session_test_subscription_clone() {
    let sub1 = Subscription::new("client1".to_string(), "topic1".to_string(), QoS::AtLeastOnce);
    let sub2 = sub1.clone();
    assert_eq!(sub1.client_id, sub2.client_id);
    assert_eq!(sub1.topic_filter, sub2.topic_filter);
    assert_eq!(sub1.qos, sub2.qos);
}

#[test]
fn test_session_manager() {
    let mut manager = SessionManager::new();

    manager.create_session("client1".to_string(), Some("user1".to_string()), true);

    let session = manager.get_session("client1");
    assert!(session.is_some());
    let session = session.unwrap();
    assert_eq!(session.client_id, "client1");
    assert_eq!(session.username, Some("user1".to_string()));

    manager.add_subscription("client1".to_string(), "topic1".to_string(), QoS::AtLeastOnce);

    let subs = manager.get_subscriptions("topic1");
    assert_eq!(subs.len(), 1);
    assert_eq!(subs[0].client_id, "client1");
    assert_eq!(subs[0].topic_filter, "topic1");

    manager.remove_subscription("client1", "topic1");
    let subs = manager.get_subscriptions("topic1");
    assert_eq!(subs.len(), 0);
}
