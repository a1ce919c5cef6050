//! Topics, topic keys and the namespaces they live in.

use vstd::prelude::*;

verus! {

/// Namespace under which the broker republishes device states.
pub const STATE_NAMESPACE: &'static str = "homeassistant_statestream";

/// Last path segment of every topic that carries a device state.
pub const STATE_SUFFIX: &'static str = "/state";

/// Namespace under which the broker takes commands; it mirrors the state
/// namespace.
pub const COMMAND_NAMESPACE: &'static str = "homeassistant_cmd";

/// Topic filter that covers every topic under the state namespace.
pub const STATE_FILTER: &'static str = "homeassistant_statestream/#";

/// The characters of [`STATE_NAMESPACE`].
pub open spec fn state_namespace() -> Seq<char> {
    "homeassistant_statestream"@
}

/// The characters of [`STATE_SUFFIX`].
pub open spec fn state_suffix() -> Seq<char> {
    "/state"@
}

/// The characters of [`COMMAND_NAMESPACE`].
pub open spec fn command_namespace() -> Seq<char> {
    "homeassistant_cmd"@
}

/// Whether a topic carries a device state, that is, ends in the state suffix.
pub open spec fn is_state_topic(topic: Seq<char>) -> bool {
    state_suffix().is_suffix_of(topic)
}

/// The key under which a topic is stored: the topic without the leading state
/// namespace, or the topic itself where it does not start with that namespace.
pub open spec fn key_of(topic: Seq<char>) -> Seq<char> {
    if state_namespace().is_prefix_of(topic) {
        topic.skip(state_namespace().len() as int)
    } else {
        topic
    }
}

/// The topic that takes the commands for the device whose state stands under
/// `key`: the key without the state suffix, under the command namespace. It
/// means something only where `key` ends in the state suffix.
pub open spec fn command_topic_of(key: Seq<char>) -> Seq<char> {
    command_namespace() + key.take(key.len() - state_suffix().len())
}

/// Stripping the state namespace from a topic that starts with it leaves what
/// follows the namespace, and that alone decides the key.
pub proof fn lemma_key_strips_namespace(rest: Seq<char>)
    ensures
        key_of(state_namespace() + rest) == rest,
{
    let topic = state_namespace() + rest;
    assert(topic.subrange(0, state_namespace().len() as int) =~= state_namespace());
    assert(topic.skip(state_namespace().len() as int) =~= rest);
}

/// The key of a topic that carries a state ends in the state suffix too: the
/// namespace that is stripped holds no part of the suffix.
pub proof fn lemma_key_keeps_state_suffix(topic: Seq<char>)
    requires
        is_state_topic(topic),
    ensures
        is_state_topic(key_of(topic)),
{
    reveal_strlit("homeassistant_statestream");
    reveal_strlit("/state");
    if state_namespace().is_prefix_of(topic) {
        let key = key_of(topic);
        let tail = topic.subrange(topic.len() - 6, topic.len() as int);
        assert(tail[0] == '/');
        assert(topic.len() >= 31) by {
            if topic.len() < 31 {
                let slash = topic.len() - 6;
                assert(topic.subrange(0, 25)[slash] == state_namespace()[slash]);
            }
        }
        assert(key.subrange(key.len() - 6, key.len() as int) =~= tail);
    }
}

/// Tells whether `text` starts with `prefix`, character by character.
pub fn starts_with(text: &str, prefix: &str) -> (found: bool)
    ensures
        found == prefix@.is_prefix_of(text@),
{
    let text_len: usize = text.unicode_len();
    let prefix_len: usize = prefix.unicode_len();
    if prefix_len > text_len {
        return false;
    }
    let mut i: usize = 0;
    while i < prefix_len
        invariant
            i <= prefix_len <= text_len,
            prefix_len == prefix@.len(),
            text_len == text@.len(),
            forall|j: int| 0 <= j < i ==> text@[j] == prefix@[j],
        decreases prefix_len - i,
    {
        if text.get_char(i) != prefix.get_char(i) {
            assert(text@.subrange(0, prefix@.len() as int)[i as int] != prefix@[i as int]);
            return false;
        }
        i += 1;
    }
    assert(text@.subrange(0, prefix@.len() as int) =~= prefix@);
    true
}

/// Tells whether `text` ends with `suffix`, character by character.
pub fn ends_with(text: &str, suffix: &str) -> (found: bool)
    ensures
        found == suffix@.is_suffix_of(text@),
{
    let text_len: usize = text.unicode_len();
    let suffix_len: usize = suffix.unicode_len();
    if suffix_len > text_len {
        return false;
    }
    let offset: usize = text_len - suffix_len;
    let mut i: usize = 0;
    while i < suffix_len
        invariant
            i <= suffix_len <= text_len,
            offset == text_len - suffix_len,
            suffix_len == suffix@.len(),
            text_len == text@.len(),
            forall|j: int| 0 <= j < i ==> text@[offset + j] == suffix@[j],
        decreases suffix_len - i,
    {
        if text.get_char(offset + i) != suffix.get_char(i) {
            assert(text@.subrange(text@.len() - suffix@.len(), text@.len() as int)[i as int]
                != suffix@[i as int]);
            return false;
        }
        i += 1;
    }
    assert(text@.subrange(text@.len() - suffix@.len(), text@.len() as int) =~= suffix@);
    true
}

/// Tells whether two texts are the same, character by character.
pub fn same_text(left: &str, right: &str) -> (same: bool)
    ensures
        same == (left@ == right@),
{
    if left.unicode_len() != right.unicode_len() {
        return false;
    }
    let same = starts_with(left, right);
    assert(left@.subrange(0, right@.len() as int) =~= left@);
    same
}

/// Whether `topic` carries a device state.
pub fn carries_state(topic: &str) -> (state: bool)
    ensures
        state == is_state_topic(topic@),
{
    ends_with(topic, STATE_SUFFIX)
}

/// The key under which `topic` is stored.
pub fn topic_key(topic: &str) -> (key: String)
    ensures
        key@ == key_of(topic@),
{
    if starts_with(topic, STATE_NAMESPACE) {
        let from: usize = STATE_NAMESPACE.unicode_len();
        let to: usize = topic.unicode_len();
        let rest = topic.substring_char(from, to);
        assert(rest@ =~= topic@.skip(state_namespace().len() as int));
        rest.to_owned()
    } else {
        topic.to_owned()
    }
}

/// The topic that takes the commands for the device whose state stands under
/// `key`, or nothing where `key` is not the key of a state.
pub fn command_topic(key: &str) -> (topic: Option<String>)
    ensures
        match topic {
            Some(found) => is_state_topic(key@) && found@ == command_topic_of(key@),
            None => !is_state_topic(key@),
        },
{
    if carries_state(key) {
        let stem = key.substring_char(0, key.unicode_len() - STATE_SUFFIX.unicode_len());
        let mut topic = COMMAND_NAMESPACE.to_owned();
        topic.append(stem);
        Some(topic)
    } else {
        None
    }
}

} // verus!
