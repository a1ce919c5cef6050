//! Events that the broker session hands to the consumer.

use vstd::prelude::*;
use vstd::utf8::{decode_utf8, valid_utf8};
use rumqttc::{ConnectionError, Event, Packet};
use crate::topic::{carries_state, is_state_topic, key_of, topic_key};

verus! {

/// `rumqttc::Event`, what the session yields when it is polled. Its inside is
/// hidden from the verifier.
#[verifier::external_type_specification]
#[verifier::external_body]
pub struct ExEvent(Event);

/// `rumqttc::ConnectionError`, why polling the session failed. Its inside is
/// hidden from the verifier.
#[verifier::external_type_specification]
#[verifier::external_body]
pub struct ExConnectionError(ConnectionError);

/// One outcome of polling the broker session.
#[derive(Clone, Debug, PartialEq, Eq)]
pub enum InboundEvent {
    /// The session failed; the text describes the failure.
    ConnectionError(String),
    /// The broker delivered a message.
    IncomingMessage { topic: String, payload: Vec<u8> },
    /// The broker acknowledged, or answered, something other than a message.
    IncomingAcknowledgment,
    /// The session wrote a packet of its own to the broker.
    OutgoingNotification,
}

/// What merging one event did to the store.
#[derive(Clone, Copy, Debug, PartialEq, Eq, Structural)]
pub enum MergeOutcome {
    /// The event carried a state and its text now stands under its key.
    Stored,
    /// The event carried a state whose payload is not UTF-8; it was skipped.
    Undecodable,
    /// The event carried no state; the store does not record it.
    Ignored,
}

/// Calls `String::from_utf8`, which accepts exactly the byte vectors that are
/// valid UTF-8 and then returns the text that they encode.
#[verifier::external_body]
fn decode_text(bytes: Vec<u8>) -> (text: Option<String>)
    ensures
        text is Some <==> valid_utf8(bytes@),
        text matches Some(decoded) ==> decoded@ == decode_utf8(bytes@),
{
    match String::from_utf8(bytes) {
        Ok(decoded) => Some(decoded),
        Err(_) => None,
    }
}

/// Tells the variants of `rumqttc::Event` apart: a publish packet from the
/// broker becomes a message with the packet's topic and payload, any other
/// packet from the broker an acknowledgment, and a packet that the session
/// wrote a notification. None of them becomes a connection error.
#[verifier::external_body]
fn classify(event: Event) -> (inbound: InboundEvent)
    ensures
        !(inbound is ConnectionError),
{
    match event {
        Event::Incoming(Packet::Publish(publish)) => InboundEvent::IncomingMessage {
            topic: publish.topic,
            payload: publish.payload.to_vec(),
        },
        Event::Incoming(_) => InboundEvent::IncomingAcknowledgment,
        Event::Outgoing(_) => InboundEvent::OutgoingNotification,
    }
}

/// Writes a `rumqttc::ConnectionError` out as text, in its `Debug` form.
#[verifier::external_body]
fn describe(error: &ConnectionError) -> (text: String) {
    format!("{:?}", error)
}

impl InboundEvent {
    /// Turns what polling the session returned into an event: a failure into a
    /// connection error with its description, anything else into one of the
    /// other three kinds.
    pub fn from_poll(polled: Result<Event, ConnectionError>) -> (inbound: InboundEvent)
        ensures
            polled is Err <==> inbound is ConnectionError,
    {
        match polled {
            Ok(event) => classify(event),
            Err(error) => InboundEvent::ConnectionError(describe(&error)),
        }
    }

    /// Whether the event is a message whose topic carries a state.
    pub open spec fn is_state_message(self) -> bool {
        self matches InboundEvent::IncomingMessage { topic, .. } && is_state_topic(topic@)
    }

    /// Whether the event is a state message whose payload cannot be read as text.
    pub open spec fn is_undecodable(self) -> bool {
        self matches InboundEvent::IncomingMessage { topic, payload } && is_state_topic(topic@)
            && !valid_utf8(payload@)
    }

    /// The store entry that the event writes, as key and text, if it writes one:
    /// a message whose topic carries a state and whose payload is UTF-8.
    pub open spec fn update(self) -> Option<(Seq<char>, Seq<char>)> {
        match self {
            InboundEvent::IncomingMessage { topic, payload } => {
                if is_state_topic(topic@) && valid_utf8(payload@) {
                    Some((key_of(topic@), decode_utf8(payload@)))
                } else {
                    None
                }
            },
            _ => None,
        }
    }

    /// Whether the event writes the store entry of `key`.
    pub open spec fn writes(self, key: Seq<char>) -> bool {
        self.update() matches Some(entry) && entry.0 == key
    }

    /// The text that the event writes, or no text where it writes no entry.
    pub open spec fn written_text(self) -> Seq<char> {
        match self.update() {
            Some((_, text)) => text,
            None => Seq::empty(),
        }
    }

    /// What merging the event does: see [`MergeOutcome`].
    pub open spec fn outcome(self) -> MergeOutcome {
        if self.update() is Some {
            MergeOutcome::Stored
        } else if self.is_undecodable() {
            MergeOutcome::Undecodable
        } else {
            MergeOutcome::Ignored
        }
    }

    /// Turns the event into the store entry that it writes, or says why it
    /// writes none.
    pub fn into_update(self) -> (entry: Result<(String, String), MergeOutcome>)
        ensures
            match entry {
                Ok((key, text)) => self.update() == Some((key@, text@)),
                Err(outcome) => self.update() is None && outcome == self.outcome(),
            },
    {
        match self {
            InboundEvent::IncomingMessage { topic, payload } => {
                if carries_state(topic.as_str()) {
                    match decode_text(payload) {
                        Some(text) => Ok((topic_key(topic.as_str()), text)),
                        None => Err(MergeOutcome::Undecodable),
                    }
                } else {
                    Err(MergeOutcome::Ignored)
                }
            },
            _ => Err(MergeOutcome::Ignored),
        }
    }
}

} // verus!
