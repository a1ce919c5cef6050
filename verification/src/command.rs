//! Commands that the consumer sends back to the broker.

use vstd::prelude::*;
use rumqttc::ClientError;
use crate::event::InboundEvent;
use crate::store::{lemma_keys_carry_state, merged_all, AppState};
use crate::topic::{command_topic, command_topic_of, is_state_topic, same_text};

verus! {

/// `rumqttc::ClientError`, why the session did not take a request. Its inside
/// is hidden from the verifier.
#[verifier::external_type_specification]
#[verifier::external_body]
pub struct ExClientError(ClientError);

/// Payload that reports a switch as on, and that switches it on.
pub const SWITCH_ON: &'static str = "on";

/// Payload that switches a switch off.
pub const SWITCH_OFF: &'static str = "off";

/// How far the broker has to confirm a delivery.
#[derive(Clone, Copy, Debug, PartialEq, Eq, Structural)]
pub enum DeliveryGuarantee {
    /// Sent once and never confirmed.
    AtMostOnce,
    /// Sent again until the broker confirms it.
    AtLeastOnce,
}

/// A command for the broker. It is handed to the session once and not kept.
#[derive(Clone, Debug, PartialEq, Eq)]
pub struct OutboundCommand {
    pub topic: String,
    pub payload: String,
    pub guarantee: DeliveryGuarantee,
    pub retain: bool,
}

/// What became of a command that was handed to the session.
#[derive(Clone, Debug, PartialEq, Eq)]
pub enum PublishStatus {
    /// The session took the command.
    Accepted,
    /// The session did not take the command; the text says why.
    Failed(String),
}

/// Writes a `rumqttc::ClientError` out as text, in its `Debug` form.
#[verifier::external_body]
fn describe_refusal(error: &ClientError) -> (text: String) {
    format!("{:?}", error)
}

impl PublishStatus {
    /// Turns what the session answered to a publish request into a status that
    /// the consumer can show and act on: a failure is kept, with its
    /// description, and never dropped.
    pub fn from_publish(sent: Result<(), ClientError>) -> (status: PublishStatus)
        ensures
            sent is Err <==> status is Failed,
    {
        match sent {
            Ok(_) => PublishStatus::Accepted,
            Err(error) => PublishStatus::Failed(describe_refusal(&error)),
        }
    }
}

/// An [`OutboundCommand`] with its texts as character sequences.
pub struct CommandView {
    pub topic: Seq<char>,
    pub payload: Seq<char>,
    pub guarantee: DeliveryGuarantee,
    pub retain: bool,
}

impl View for OutboundCommand {
    type V = CommandView;

    open spec fn view(&self) -> CommandView {
        CommandView {
            topic: self.topic@,
            payload: self.payload@,
            guarantee: self.guarantee,
            retain: self.retain,
        }
    }
}

/// What the store knows of the switch under `key`: on where the key holds the
/// text "on", off where it holds any other text, nothing where the store does
/// not know the key.
pub open spec fn switch_state_of(store: Map<Seq<char>, Seq<char>>, key: Seq<char>) -> Option<bool> {
    if store.contains_key(key) {
        Some(store[key] == "on"@)
    } else {
        None
    }
}

/// The payload that brings a switch into the state opposite to `on`.
pub open spec fn toggle_payload_of(on: bool) -> Seq<char> {
    if on {
        "off"@
    } else {
        "on"@
    }
}

/// The command that toggles the switch under `key`: it goes to the command
/// topic of the key, carries the payload opposite to the known state, asks for
/// delivery at least once and is not retained. There is none where the store
/// does not know the key or the key is not the key of a state.
pub open spec fn toggle_of(store: Map<Seq<char>, Seq<char>>, key: Seq<char>) -> Option<
    CommandView,
> {
    match switch_state_of(store, key) {
        Some(on) if is_state_topic(key) => Some(
            CommandView {
                topic: command_topic_of(key),
                payload: toggle_payload_of(on),
                guarantee: DeliveryGuarantee::AtLeastOnce,
                retain: false,
            },
        ),
        _ => None,
    }
}

/// Every switch that the store has learned of can be toggled: after any run
/// of events merged into an empty store, there is a toggle command for exactly
/// the keys that the store knows.
pub proof fn lemma_known_switch_has_toggle(events: Seq<InboundEvent>, key: Seq<char>)
    ensures
        toggle_of(merged_all(Map::empty(), events), key) is Some <==> merged_all(
            Map::empty(),
            events,
        ).contains_key(key),
{
    lemma_keys_carry_state(Map::empty(), events);
}

/// The payload that brings a switch into the state opposite to `on`.
pub fn toggle_payload(on: bool) -> (payload: &'static str)
    ensures
        payload@ == toggle_payload_of(on),
{
    if on {
        SWITCH_OFF
    } else {
        SWITCH_ON
    }
}

impl AppState {
    /// What the store knows of the switch under `key`.
    pub fn switch_state(&self, key: &str) -> (state: Option<bool>)
        ensures
            state == switch_state_of(self@, key@),
    {
        match self.get(key) {
            Some(text) => Some(same_text(text.as_str(), SWITCH_ON)),
            None => None,
        }
    }

    /// The command that toggles the switch under `key`, if there is one.
    pub fn toggle_command(&self, key: &str) -> (command: Option<OutboundCommand>)
        ensures
            match command {
                Some(toggle) => toggle_of(self@, key@) == Some(toggle@),
                None => toggle_of(self@, key@) is None,
            },
    {
        match self.switch_state(key) {
            Some(on) => match command_topic(key) {
                Some(topic) => Some(
                    OutboundCommand {
                        topic,
                        payload: toggle_payload(on).to_owned(),
                        guarantee: DeliveryGuarantee::AtLeastOnce,
                        retain: false,
                    },
                ),
                None => None,
            },
            None => None,
        }
    }
}

} // verus!
