use std::time::Duration;
use dumq_mqtt::client::ClientConfig;
use dumq_mqtt::client::{ClientCore, ConnectionState};
use dumq_mqtt::protocol::{PacketIdCounter, QoS};
use dumq_mqtt::string_map::StringMap;

#[test]
fn test_client_config_new() {
    let config = ClientConfig::new("localhost:1883");
    assert_eq!(config.server_addr, "localhost:1883");
    assert_eq!(config.connect_timeout, Duration::from_secs(30));
    assert_eq!(config.read_timeout, Duration::from_secs(30));
    assert_eq!(config.write_timeout, Duration::from_secs(30));
    assert_eq!(config.keep_alive_interval, Duration::from_secs(60));
    assert_eq!(config.max_packet_size, 1024 * 1024);
    assert_eq!(config.protocol_version, 4);
}

#[test]
fn test_client_config_builder_pattern() {
    let config = ClientConfig::new("mqtt.example.com:8883")
        .connect_timeout(Duration::from_secs(60))
        .read_timeout(Duration::from_secs(45))
        .write_timeout(Duration::from_secs(45))
        .keep_alive_interval(Duration::from_secs(120))
        .max_packet_size(2 * 1024 * 1024)
        .protocol_version(5);

    assert_eq!(config.connect_timeout, Duration::from_secs(60));
    assert_eq!(config.read_timeout, Duration::from_secs(45));
    assert_eq!(config.write_timeout, Duration::from_secs(45));
    assert_eq!(config.keep_alive_interval, Duration::from_secs(120));
    assert_eq!(config.max_packet_size, 2 * 1024 * 1024);
    assert_eq!(config.protocol_version, 5);
}

#[test]
fn test_client_config_clone() {
    let config1 = ClientConfig::new("localhost:1883");
    let config2 = config1.clone();
    assert_eq!(config1.server_addr, config2.server_addr);
    assert_eq!(config1.connect_timeout, config2.connect_timeout);
    assert_eq!(config1.max_packet_size, config2.max_packet_size);
}

#[test]
fn test_client_new() {
    let core = ClientCore::new();
    assert_eq!(core.state, ConnectionState::Disconnected);
    assert_eq!(core.packet_ids.next, 1);
    assert!(core.subscriptions.is_empty());
}

#[test]
fn test_client_next_packet_id() {
    let mut ids = PacketIdCounter::new();

    assert_eq!(ids.next_packet_id(), 1);
    assert_eq!(ids.next_packet_id(), 2);
    assert_eq!(ids.next_packet_id(), 3);

    ids.next = u16::MAX;
    assert_eq!(ids.next_packet_id(), u16::MAX);
    assert_eq!(ids.next_packet_id(), 1);
    assert_eq!(ids.next_packet_id(), 2);
}

#[test]
fn test_client_state() {
    let state = ConnectionState::Disconnected;
    assert_eq!(state.clone(), ConnectionState::Disconnected);
}

#[test]
fn test_client_connection_state_methods() {
    let state = ConnectionState::Disconnected;
    assert!(!state.is_connected());
    assert!(state.is_disconnected());
}

#[test]
fn test_client_add_subscription() {
    let mut subscriptions: StringMap<QoS> = StringMap::new();

    subscriptions.insert("home/temp".to_string(), QoS::AtLeastOnce);
    subscriptions.insert("home/humidity".to_string(), QoS::ExactlyOnce);

    assert_eq!(subscriptions.len(), 2);
    assert_eq!(subscriptions.get("home/temp"), Some(&QoS::AtLeastOnce));
    assert_eq!(subscriptions.get("home/humidity"), Some(&QoS::ExactlyOnce));
}

#[test]
fn test_packet_id_counter_thread_safety() {
    let mut ids1 = PacketIdCounter::new();
    let mut ids2 = PacketIdCounter::new();

    let id1 = ids1.next_packet_id();
    let id2 = ids2.next_packet_id();

    assert_eq!(id1, 1);
    assert_eq!(id2, 1);

    let id1_next = ids1.next_packet_id();
    let id2_next = ids2.next_packet_id();

    assert_eq!(id1_next, 2);
    assert_eq!(id2_next, 2);
}
