use aiko::mqtt::{
    on_poll, ImageData, ImageFormat, IncomingMessage, LoopAction, MqttConfig, PollOutcome, ERROR_PAUSE_MS,
    SHUTDOWN_AWARE_ERROR_PAUSE_MS,
};

#[test]
fn test_image_data() {
    let image = ImageData::new(640, 480, 3, ImageFormat::Rgb8);
    assert_eq!(image.data.len(), 640 * 480 * 3);
}

#[test]
fn image_from_raw_keeps_data() {
    let image = ImageData::from_raw(2, 1, 1, ImageFormat::Gray8, vec![7, 8]);
    assert_eq!(image.data, vec![7, 8]);
    assert_eq!(image.format, ImageFormat::Gray8);
}

#[test]
fn default_config() {
    let config = MqttConfig::default();
    assert_eq!(config.broker_host, "localhost");
    assert_eq!(config.broker_port, 1883);
    assert_eq!(config.namespace, "default");
    assert_eq!(config.keep_alive_secs, 30);
    assert!(config.clean_session);
    assert!(config.username.is_none() && config.password.is_none());
    assert!(config.client_id.starts_with("aiko-"));
    assert_eq!(config.client_id.len(), 5 + 36);
    let other = MqttConfig::default();
    assert_ne!(config.client_id, other.client_id);
}

#[test]
fn config_builders() {
    let config = MqttConfig::new("broker", 8883)
        .with_client_id("me")
        .with_namespace("lab")
        .with_credentials("user", "pass");
    assert_eq!(config.broker_host, "broker");
    assert_eq!(config.broker_port, 8883);
    assert_eq!(config.client_id, "me");
    assert_eq!(config.namespace, "lab");
    let (u, p) = config.credentials().unwrap();
    assert_eq!(u, "user");
    assert_eq!(p, "pass");
    assert!(MqttConfig::new("b", 1).credentials().is_none());
}

#[test]
fn poll_outcomes_drive_the_connection_flag() {
    let msg = IncomingMessage { topic: "t".to_string(), payload: vec![1], qos: rumqttc::QoS::AtLeastOnce };
    match on_poll(true, PollOutcome::Publish(msg), ERROR_PAUSE_MS) {
        (true, LoopAction::Deliver(m)) => {
            assert_eq!(m.topic, "t");
            assert_eq!(m.qos, rumqttc::QoS::AtLeastOnce);
        }
        _ => panic!("a publish is delivered"),
    }
    assert!(matches!(on_poll(false, PollOutcome::ConnAck, ERROR_PAUSE_MS), (true, LoopAction::Continue)));
    assert!(matches!(on_poll(true, PollOutcome::Disconnect, ERROR_PAUSE_MS), (false, LoopAction::Continue)));
    assert!(matches!(on_poll(true, PollOutcome::Other, ERROR_PAUSE_MS), (true, LoopAction::Continue)));
    assert!(matches!(on_poll(true, PollOutcome::Failed, ERROR_PAUSE_MS), (false, LoopAction::PauseMs(1000))));
    assert!(matches!(
        on_poll(true, PollOutcome::Failed, SHUTDOWN_AWARE_ERROR_PAUSE_MS),
        (false, LoopAction::PauseMs(100))
    ));
}
