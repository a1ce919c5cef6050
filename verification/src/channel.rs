//! The bounded channel that carries inbound events from the network side to the
//! consumer.

use vstd::prelude::*;
use tokio::sync::mpsc::error::TryRecvError;
use tokio::sync::mpsc::{Receiver, Sender};
use crate::event::InboundEvent;

verus! {

/// `tokio::sync::mpsc::Receiver`, the consumer's end of a bounded channel. Its
/// inside is hidden from the verifier.
#[verifier::external_type_specification]
#[verifier::external_body]
#[verifier::reject_recursive_types(T)]
pub struct ExReceiver<T>(Receiver<T>);

/// `tokio::sync::mpsc::Sender`, a producer's end of a bounded channel. Its
/// inside is hidden from the verifier.
#[verifier::external_type_specification]
#[verifier::external_body]
#[verifier::reject_recursive_types(T)]
pub struct ExSender<T>(Sender<T>);

/// Number of events that the channel holds before a sender has to wait.
pub const CHANNEL_CAPACITY: usize = 1000;

/// The buffer size that the channel behind `source` was created with; it is
/// what `Receiver::max_capacity` returns and never changes.
pub uninterp spec fn bound_of(source: Receiver<InboundEvent>) -> usize;

/// What one non-blocking receive found.
#[derive(Clone, Debug, PartialEq, Eq)]
pub enum Received {
    /// The oldest event that was waiting.
    Event(InboundEvent),
    /// Nothing is waiting, but a sender is still alive.
    Empty,
    /// Nothing is waiting and nothing can come: every sender is gone.
    Closed,
}

/// Calls `tokio::sync::mpsc::channel`. That function panics on a buffer of zero
/// or of more than `usize::MAX >> 3`, which is `usize::MAX / 8`; on any other it
/// returns the two ends of a channel that remembers the buffer size it was given.
#[verifier::external_body]
fn bounded(buffer: usize) -> (ends: (Sender<InboundEvent>, Receiver<InboundEvent>))
    requires
        0 < buffer <= usize::MAX / 8,
    ensures
        bound_of(ends.1) == buffer,
{
    tokio::sync::mpsc::channel(buffer)
}

/// Calls `Receiver::try_recv`, which does not wait for an event to arrive: it
/// hands out the oldest waiting event, or reports that none is waiting and
/// whether a sender is left. Which of the three comes back depends on what the
/// senders have done so far, so nothing is claimed about it.
#[verifier::external_body]
pub(crate) fn try_receive(source: &mut Receiver<InboundEvent>) -> (received: Received)
    ensures
        bound_of(*final(source)) == bound_of(*old(source)),
{
    match source.try_recv() {
        Ok(event) => Received::Event(event),
        Err(TryRecvError::Empty) => Received::Empty,
        Err(TryRecvError::Disconnected) => Received::Closed,
    }
}

/// Creates the channel between the network side and the consumer, with room for
/// [`CHANNEL_CAPACITY`] events.
pub fn event_channel() -> (ends: (Sender<InboundEvent>, Receiver<InboundEvent>))
    ensures
        bound_of(ends.1) == CHANNEL_CAPACITY,
{
    bounded(CHANNEL_CAPACITY)
}

} // verus!
