use webviz_server::config::{DEFAULT_BUS_CAPACITY, DEFAULT_DRAIN_GRACE_MS};
use webviz_server::{Config, Frame, HubError, MessagePayload};

#[test]
fn data_frames_hand_out_their_payload() {
    assert_eq!(
        Frame::Text("hi".to_string()).into_payload(),
        Some(MessagePayload::Text("hi".to_string()))
    );
    assert_eq!(
        Frame::Binary(vec![0xFF]).into_payload(),
        Some(MessagePayload::Binary(vec![0xFF]))
    );
}

#[test]
fn control_frames_hand_out_nothing() {
    assert_eq!(Frame::Ping(vec![1]).into_payload(), None);
    assert_eq!(Frame::Pong(vec![]).into_payload(), None);
    assert_eq!(Frame::Close.into_payload(), None);
}

#[test]
fn each_error_kind_has_its_text() {
    assert_eq!(
        HubError::AlreadyRunning.describe(),
        "Server is already running, can't invoke start_server()."
    );
    assert_eq!(HubError::StartupFailed.describe(), "Server failed to start.");
    assert_eq!(HubError::RegistryUnavailable.describe(), "Server state could not be accessed.");
    assert_eq!(
        HubError::ConnectionLag.describe(),
        "A client fell behind the broadcast bus and skipped batches."
    );
    assert_eq!(HubError::ConnectionFailed.describe(), "A client connection failed.");
    assert_eq!(
        HubError::ListenerFailed.describe(),
        "The listening socket failed; the server is shutting down."
    );
}

#[test]
fn config_defaults() {
    assert_eq!(DEFAULT_BUS_CAPACITY, 16);
    assert_eq!(DEFAULT_DRAIN_GRACE_MS, 100);
    let config = Config::new("127.0.0.1".to_string(), 8765);
    assert_eq!(config.host(), "127.0.0.1");
    assert_eq!(config.port(), 8765);
    assert_eq!(config.bus_capacity(), 16);
    assert_eq!(config.drain_grace_ms(), 100);
}

#[test]
fn config_accepts_only_a_capacity_a_bus_can_have() {
    let config = Config::new("localhost".to_string(), 1).with_bus_capacity(0);
    assert!(config.is_none());
    let config = Config::new("localhost".to_string(), 1).with_bus_capacity(usize::MAX / 2 + 1);
    assert!(config.is_none());
    let config = Config::new("localhost".to_string(), 1).with_bus_capacity(usize::MAX);
    assert!(config.is_none());
    let config = Config::new("localhost".to_string(), 1).with_bus_capacity(1).unwrap();
    assert_eq!(config.bus_capacity(), 1);
    let config = config.with_bus_capacity(usize::MAX / 2).unwrap();
    assert_eq!(config.bus_capacity(), usize::MAX / 2);
    assert_eq!(config.host(), "localhost");
    assert_eq!(config.port(), 1);
    assert_eq!(config.drain_grace_ms(), 100);
}

#[test]
fn config_grace_can_be_set() {
    let config = Config::new("h".to_string(), 2).with_drain_grace_ms(250);
    assert_eq!(config.drain_grace_ms(), 250);
    assert_eq!(config.bus_capacity(), 16);
    let config = config.with_drain_grace_ms(0);
    assert_eq!(config.drain_grace_ms(), 0);
}
