use lcars::command::{
    toggle_payload, DeliveryGuarantee, OutboundCommand, PublishStatus, SWITCH_OFF, SWITCH_ON,
};
use lcars::connection::ConnectionOptions;
use lcars::event::InboundEvent;
use lcars::store::AppState;
use rumqttc::{ClientError, PingReq, QoS, Request};

const KEY: &str = "/switch/terminal1_sleepy_sounds_playing/state";

fn store_with(payload: &[u8]) -> AppState {
    let mut state = AppState::new();
    state.merge(InboundEvent::IncomingMessage {
        topic: "homeassistant_statestream/switch/terminal1_sleepy_sounds_playing/state".to_string(),
        payload: payload.to_vec(),
    });
    state
}

#[test]
fn switch_payloads_are_on_and_off() {
    assert_eq!(SWITCH_ON, "on");
    assert_eq!(SWITCH_OFF, "off");
}

#[test]
fn toggle_payload_is_the_opposite_state() {
    assert_eq!(toggle_payload(false), "on");
    assert_eq!(toggle_payload(true), "off");
}

#[test]
fn switch_state_reads_on_and_anything_else() {
    assert_eq!(store_with(b"on").switch_state(KEY), Some(true));
    assert_eq!(store_with(b"off").switch_state(KEY), Some(false));
    assert_eq!(store_with(b"unavailable").switch_state(KEY), Some(false));
    assert_eq!(store_with(b"ON").switch_state(KEY), Some(false));
    assert_eq!(store_with(b"").switch_state(KEY), Some(false));
}

#[test]
fn switch_state_of_an_unknown_key_is_unknown() {
    assert_eq!(AppState::new().switch_state(KEY), None);
    assert_eq!(store_with(b"on").switch_state("/switch/lamp/state"), None);
}

#[test]
fn toggle_command_switches_off_what_is_on() {
    assert_eq!(
        store_with(b"on").toggle_command(KEY),
        Some(OutboundCommand {
            topic: "homeassistant_cmd/switch/terminal1_sleepy_sounds_playing".to_string(),
            payload: "off".to_string(),
            guarantee: DeliveryGuarantee::AtLeastOnce,
            retain: false,
        })
    );
}

#[test]
fn toggle_command_switches_on_what_is_not_on() {
    let expected = Some(OutboundCommand {
        topic: "homeassistant_cmd/switch/terminal1_sleepy_sounds_playing".to_string(),
        payload: "on".to_string(),
        guarantee: DeliveryGuarantee::AtLeastOnce,
        retain: false,
    });
    assert_eq!(store_with(b"off").toggle_command(KEY), expected);
    assert_eq!(store_with(b"unavailable").toggle_command(KEY), expected);
}

#[test]
fn toggle_command_needs_a_known_state() {
    assert_eq!(AppState::new().toggle_command(KEY), None);
    assert_eq!(store_with(b"on").toggle_command("/switch/lamp/state"), None);
}

#[test]
fn toggle_command_needs_the_key_of_a_state() {
    let mut state = AppState::new();
    state.merge(InboundEvent::IncomingMessage {
        topic: "homeassistant_statestream/switch/lamp/state".to_string(),
        payload: b"on".to_vec(),
    });
    assert_eq!(state.toggle_command("/switch/lamp"), None);
}

#[test]
fn every_known_switch_can_be_toggled() {
    let mut state = AppState::new();
    for (topic, payload) in [
        ("homeassistant_statestream/switch/lamp/state", "on"),
        ("homeassistant_statestream/switch/fan/state", "off"),
        ("homeassistant_statestream/state", "on"),
        ("zigbee/plug/state", "off"),
        ("homeassistant_statestream/switch/lamp/friendly_name", "Lamp"),
    ] {
        state.merge(InboundEvent::IncomingMessage {
            topic: topic.to_string(),
            payload: payload.as_bytes().to_vec(),
        });
    }
    assert_eq!(state.len(), 4);
    for key in ["/switch/lamp/state", "/switch/fan/state", "/state", "zigbee/plug/state"] {
        assert!(state.contains_key(key));
        assert!(state.toggle_command(key).is_some());
    }
    assert_eq!(
        state.toggle_command("zigbee/plug/state").unwrap().topic,
        "homeassistant_cmdzigbee/plug"
    );
}

#[test]
fn accepted_publish_is_reported_as_accepted() {
    assert_eq!(PublishStatus::from_publish(Ok(())), PublishStatus::Accepted);
}

#[test]
fn failed_publish_is_reported_with_its_reason() {
    assert_eq!(
        PublishStatus::from_publish(Err(ClientError::Request(Request::PingReq(PingReq)))),
        PublishStatus::Failed("Request(PingReq(PingReq))".to_string())
    );
    assert_eq!(
        PublishStatus::from_publish(Err(ClientError::TryRequest(Request::PingReq(PingReq)))),
        PublishStatus::Failed("TryRequest(PingReq(PingReq))".to_string())
    );
}

#[test]
fn publish_to_a_session_that_is_gone_is_reported_as_failed() {
    let options = ConnectionOptions::standard(Some("secret".to_string())).unwrap();
    let (client, event_loop) = options.session().unwrap();
    drop(event_loop);
    let sent = client.try_publish("homeassistant_cmd/switch/lamp", QoS::AtLeastOnce, false, "on");
    assert!(matches!(PublishStatus::from_publish(sent), PublishStatus::Failed(_)));
}
