//! The state store: for each topic key, the text that it last carried.

use vstd::prelude::*;
use vstd::hash_map::StringHashMap;
use vstd::utf8::decode_utf8;
use crate::event::{InboundEvent, MergeOutcome};
use crate::topic::{is_state_topic, key_of, lemma_key_keeps_state_suffix};

verus! {

/// The store after `event` has been merged into `store`: the entry that the
/// event writes replaces whatever stood under its key; an event that writes
/// none leaves the store as it is.
pub open spec fn merged(store: Map<Seq<char>, Seq<char>>, event: InboundEvent) -> Map<
    Seq<char>,
    Seq<char>,
> {
    match event.update() {
        Some((key, text)) => store.insert(key, text),
        None => store,
    }
}

/// The store after `events` have been merged into `store` one by one, the first
/// of them first.
pub open spec fn merged_all(store: Map<Seq<char>, Seq<char>>, events: Seq<InboundEvent>) -> Map<
    Seq<char>,
    Seq<char>,
>
    decreases events.len(),
{
    if events.len() == 0 {
        store
    } else {
        merged(merged_all(store, events.drop_last()), events.last())
    }
}

/// Merging `events` and then `event` is merging `event` into what merging
/// `events` gave.
pub proof fn lemma_merged_all_push(
    store: Map<Seq<char>, Seq<char>>,
    events: Seq<InboundEvent>,
    event: InboundEvent,
)
    ensures
        merged_all(store, events.push(event)) == merged(merged_all(store, events), event),
{
    assert(events.push(event).drop_last() =~= events);
}

/// Merging two runs of events one after the other is merging their
/// concatenation.
pub proof fn lemma_merged_all_concat(
    store: Map<Seq<char>, Seq<char>>,
    first: Seq<InboundEvent>,
    then: Seq<InboundEvent>,
)
    ensures
        merged_all(store, first + then) == merged_all(merged_all(store, first), then),
    decreases then.len(),
{
    if then.len() == 0 {
        assert(first + then =~= first);
    } else {
        assert((first + then).drop_last() =~= first + then.drop_last());
        lemma_merged_all_concat(store, first, then.drop_last());
    }
}

/// Last write wins: after any run of events, a key holds the text of the last
/// event in the run that wrote it, whatever was merged before, between and
/// after.
pub proof fn lemma_last_write_wins(
    store: Map<Seq<char>, Seq<char>>,
    events: Seq<InboundEvent>,
    at: int,
    key: Seq<char>,
)
    requires
        0 <= at < events.len(),
        events[at].writes(key),
        forall|later: int| at < later < events.len() ==> !events[later].writes(key),
    ensures
        merged_all(store, events).contains_key(key),
        merged_all(store, events)[key] == events[at].written_text(),
    decreases events.len(),
{
    if at < events.len() - 1 {
        assert(!events.last().writes(key));
        lemma_last_write_wins(store, events.drop_last(), at, key);
    }
}

/// Last write wins among messages of one key: where every event of a run is a
/// message with the same topic key, and the last of them carries a state as
/// readable text, the key holds that text after the run.
pub proof fn lemma_last_message_wins(
    store: Map<Seq<char>, Seq<char>>,
    events: Seq<InboundEvent>,
    key: Seq<char>,
)
    requires
        events.len() > 0,
        forall|i: int|
            0 <= i < events.len() ==> (#[trigger] events[i] matches InboundEvent::IncomingMessage {
                topic,
                ..
            } && key_of(topic@) == key),
        events.last().update() is Some,
    ensures
        merged_all(store, events).contains_key(key),
        events.last() matches InboundEvent::IncomingMessage { payload, .. } && merged_all(
            store,
            events,
        )[key] == decode_utf8(payload@),
{
    lemma_last_write_wins(store, events, events.len() - 1, key);
}

/// Events that carry no state never change the store.
pub proof fn lemma_stateless_events_change_nothing(
    store: Map<Seq<char>, Seq<char>>,
    events: Seq<InboundEvent>,
)
    requires
        forall|i: int| 0 <= i < events.len() ==> !(#[trigger] events[i]).is_state_message(),
    ensures
        merged_all(store, events) == store,
    decreases events.len(),
{
    if events.len() > 0 {
        lemma_stateless_events_change_nothing(store, events.drop_last());
    }
}

/// A state message that cannot be decoded is skipped: the events before it and
/// after it are merged as if it had never arrived.
pub proof fn lemma_undecodable_is_skipped(
    store: Map<Seq<char>, Seq<char>>,
    before: Seq<InboundEvent>,
    event: InboundEvent,
    after: Seq<InboundEvent>,
)
    requires
        event.is_undecodable(),
    ensures
        merged_all(store, before.push(event) + after) == merged_all(store, before + after),
{
    lemma_merged_all_push(store, before, event);
    lemma_merged_all_concat(store, before.push(event), after);
    lemma_merged_all_concat(store, before, after);
}

/// The store never forgets a key: merging only adds keys or replaces texts.
pub proof fn lemma_coverage_grows(store: Map<Seq<char>, Seq<char>>, events: Seq<InboundEvent>)
    ensures
        store.dom().subset_of(merged_all(store, events).dom()),
    decreases events.len(),
{
    if events.len() > 0 {
        lemma_coverage_grows(store, events.drop_last());
    }
}

/// Whether every key of `store` ends in the state suffix.
pub open spec fn keys_carry_state(store: Map<Seq<char>, Seq<char>>) -> bool {
    forall|key: Seq<char>| store.contains_key(key) ==> is_state_topic(key)
}

/// Merging keeps the keys in shape: where every key ended in the state suffix
/// before a run of events, every key does after it.
pub proof fn lemma_keys_carry_state(store: Map<Seq<char>, Seq<char>>, events: Seq<InboundEvent>)
    requires
        keys_carry_state(store),
    ensures
        keys_carry_state(merged_all(store, events)),
    decreases events.len(),
{
    if events.len() > 0 {
        lemma_keys_carry_state(store, events.drop_last());
        if let InboundEvent::IncomingMessage { topic, .. } = events.last() {
            if is_state_topic(topic@) {
                lemma_key_keeps_state_suffix(topic@);
            }
        }
    }
}

/// Current known state of the devices, by topic key.
pub struct AppState {
    device_states: StringHashMap<String>,
}

impl View for AppState {
    type V = Map<Seq<char>, Seq<char>>;

    closed spec fn view(&self) -> Self::V {
        self.device_states@.map_values(|text: String| text@)
    }
}

impl AppState {
    /// Creates a store that knows no state.
    pub fn new() -> (state: Self)
        ensures
            state@ == Map::<Seq<char>, Seq<char>>::empty(),
    {
        let state = AppState { device_states: StringHashMap::new() };
        assert(state@ =~= Map::<Seq<char>, Seq<char>>::empty());
        state
    }

    /// Merges one event into the store and tells what that did.
    pub fn merge(&mut self, event: InboundEvent) -> (outcome: MergeOutcome)
        ensures
            final(self)@ == merged(old(self)@, event),
            outcome == event.outcome(),
    {
        match event.into_update() {
            Ok((key, text)) => {
                self.device_states.insert(key, text);
                assert(self@ =~= old(self)@.insert(key@, text@));
                MergeOutcome::Stored
            },
            Err(outcome) => outcome,
        }
    }

    /// Whether the store knows `key`.
    pub fn contains_key(&self, key: &str) -> (known: bool)
        ensures
            known == self@.contains_key(key@),
    {
        self.device_states.contains_key(key)
    }

    /// Number of keys that the store knows.
    pub fn len(&self) -> (count: usize)
        ensures
            count == self@.len(),
    {
        assert(self@.dom() =~= self.device_states@.dom());
        self.device_states.len()
    }

    /// Whether the store knows no key at all.
    pub fn is_empty(&self) -> (empty: bool)
        ensures
            empty == (self@.len() == 0),
    {
        self.len() == 0
    }

    /// The text that `key` last carried, if the store knows the key.
    pub fn get(&self, key: &str) -> (text: Option<&String>)
        ensures
            match text {
                Some(found) => self@.contains_key(key@) && found@ == self@[key@],
                None => !self@.contains_key(key@),
            },
    {
        self.device_states.get(key)
    }
}

impl Default for AppState {
    /// Creates a store that knows no state.
    fn default() -> (state: Self)
        ensures
            state@ == Map::<Seq<char>, Seq<char>>::empty(),
    {
        AppState::new()
    }
}

} // verus!
