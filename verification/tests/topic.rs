use lcars::topic::{
    carries_state, command_topic, ends_with, same_text, starts_with, topic_key, COMMAND_NAMESPACE,
    STATE_FILTER, STATE_NAMESPACE, STATE_SUFFIX,
};

#[test]
fn namespaces_are_the_wire_names() {
    assert_eq!(STATE_NAMESPACE, "homeassistant_statestream");
    assert_eq!(STATE_SUFFIX, "/state");
    assert_eq!(COMMAND_NAMESPACE, "homeassistant_cmd");
    assert_eq!(STATE_FILTER, "homeassistant_statestream/#");
}

#[test]
fn starts_with_compares_characters() {
    assert!(starts_with("homeassistant", "home"));
    assert!(starts_with("home", "home"));
    assert!(starts_with("home", ""));
    assert!(starts_with("", ""));
    assert!(!starts_with("home", "homeassistant"));
    assert!(!starts_with("home", "hone"));
    assert!(!starts_with("", "h"));
    assert!(starts_with("gr\u{fc}n/licht", "gr\u{fc}n"));
    assert!(!starts_with("gr\u{fc}n/licht", "gru"));
}

#[test]
fn ends_with_compares_characters() {
    assert!(ends_with("a/state", "/state"));
    assert!(ends_with("/state", "/state"));
    assert!(ends_with("a", ""));
    assert!(!ends_with("state", "/state"));
    assert!(!ends_with("a/stat", "/state"));
    assert!(!ends_with("a/state ", "/state"));
    assert!(ends_with("licht/gr\u{fc}n", "gr\u{fc}n"));
}

#[test]
fn same_text_is_equality() {
    assert!(same_text("on", "on"));
    assert!(same_text("", ""));
    assert!(!same_text("on", "off"));
    assert!(!same_text("on", "one"));
    assert!(!same_text("one", "on"));
    assert!(!same_text("On", "on"));
}

#[test]
fn state_topics_end_in_the_suffix() {
    assert!(carries_state("homeassistant_statestream/switch/lamp/state"));
    assert!(carries_state("/state"));
    assert!(!carries_state("homeassistant_statestream/switch/lamp/friendly_name"));
    assert!(!carries_state("homeassistant_statestream/switch/lamp/state/"));
    assert!(!carries_state("homeassistant_statestream"));
    assert!(!carries_state(""));
}

#[test]
fn key_is_the_topic_without_the_namespace() {
    assert_eq!(topic_key("homeassistant_statestream/switch/x/state"), "/switch/x/state");
    assert_eq!(topic_key("homeassistant_statestream"), "");
    assert_eq!(topic_key("homeassistant_statestream/"), "/");
}

#[test]
fn key_of_a_topic_outside_the_namespace_is_the_topic() {
    assert_eq!(topic_key("zigbee/switch/x/state"), "zigbee/switch/x/state");
    assert_eq!(topic_key(""), "");
    assert_eq!(topic_key("homeassistant"), "homeassistant");
}

#[test]
fn key_loses_the_namespace_only_at_the_front() {
    assert_eq!(
        topic_key("homeassistant_statestream/a/homeassistant_statestream/state"),
        "/a/homeassistant_statestream/state"
    );
    assert_eq!(
        topic_key("a/homeassistant_statestream/state"),
        "a/homeassistant_statestream/state"
    );
}

#[test]
fn key_does_not_depend_on_earlier_calls() {
    let first = topic_key("homeassistant_statestream/switch/x/state");
    let _ = topic_key("homeassistant_statestream/sensor/y/state");
    let again = topic_key("homeassistant_statestream/switch/x/state");
    assert_eq!(first, again);
}

#[test]
fn command_topic_mirrors_the_state_key() {
    assert_eq!(
        command_topic("/switch/terminal1_sleepy_sounds_playing/state"),
        Some("homeassistant_cmd/switch/terminal1_sleepy_sounds_playing".to_string())
    );
    assert_eq!(command_topic("/state"), Some("homeassistant_cmd".to_string()));
    assert_eq!(command_topic("/switch/lamp"), None);
    assert_eq!(command_topic(""), None);
}
