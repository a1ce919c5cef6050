//! The consumer's drain: once per tick it empties the channel into the store.

use vstd::prelude::*;
use tokio::sync::mpsc::Receiver;
use crate::channel::{bound_of, try_receive, Received};
use crate::event::{InboundEvent, MergeOutcome};
use crate::store::{lemma_merged_all_push, merged, merged_all, AppState};

verus! {

/// Why a drain came to its end.
#[derive(Clone, Copy, Debug, PartialEq, Eq, Structural)]
pub enum DrainSignal {
    /// The channel held nothing more; a sender is still alive.
    Empty,
    /// The channel held nothing more and every sender is gone: no event will
    /// ever come again.
    Closed,
    /// The drain took as many events as it was allowed to take.
    Limit,
}

/// What one step of a drain did.
#[derive(Clone, Copy, Debug, PartialEq, Eq, Structural)]
pub enum Step {
    /// An event was taken and merged, with this outcome.
    Merged(MergeOutcome),
    /// Nothing was taken; the drain ends with this signal.
    Stop(DrainSignal),
}

/// The account of one drain.
#[derive(Clone, Copy, Debug, PartialEq, Eq, Structural)]
pub struct DrainReport {
    /// Number of events taken off the channel and merged.
    pub received: usize,
    /// Number of those that carried a state but no readable text.
    pub undecodable: usize,
    /// Why the drain ended.
    pub signal: DrainSignal,
}

/// Number of events in `events` that carry a state but no readable text.
pub open spec fn undecodable_count(events: Seq<InboundEvent>) -> nat
    decreases events.len(),
{
    if events.len() == 0 {
        0
    } else {
        undecodable_count(events.drop_last()) + if events.last().is_undecodable() {
            1nat
        } else {
            0nat
        }
    }
}

/// Whether a drain that took `events`, in that order, turns the store `before`
/// into the store `after` and gives `report`.
pub open spec fn explains(
    events: Seq<InboundEvent>,
    before: Map<Seq<char>, Seq<char>>,
    after: Map<Seq<char>, Seq<char>>,
    report: DrainReport,
) -> bool {
    &&& events.len() == report.received
    &&& undecodable_count(events) == report.undecodable
    &&& after == merged_all(before, events)
}

/// Whether the consumer goes on draining after a drain that gave `report`: it
/// does as long as the channel was open and the drain did not find it closed.
/// A closed channel never opens again.
pub fn keeps_draining(open: bool, report: DrainReport) -> (still: bool)
    ensures
        still == (open && !(report.signal is Closed)),
{
    match report.signal {
        DrainSignal::Closed => false,
        _ => open,
    }
}

impl AppState {
    /// Takes one result of a non-blocking receive: an event is merged into the
    /// store, anything else ends the drain and leaves the store as it is.
    pub fn absorb(&mut self, received: Received) -> (step: Step)
        ensures
            match received {
                Received::Event(event) => {
                    &&& step == Step::Merged(event.outcome())
                    &&& final(self)@ == merged(old(self)@, event)
                },
                Received::Empty => {
                    &&& step == Step::Stop(DrainSignal::Empty)
                    &&& final(self)@ == old(self)@
                },
                Received::Closed => {
                    &&& step == Step::Stop(DrainSignal::Closed)
                    &&& final(self)@ == old(self)@
                },
            },
    {
        match received {
            Received::Event(event) => Step::Merged(self.merge(event)),
            Received::Empty => Step::Stop(DrainSignal::Empty),
            Received::Closed => Step::Stop(DrainSignal::Closed),
        }
    }

    /// Receives without blocking and merges, event by event, until the channel
    /// reports that it is empty or closed, or until `limit` events are merged.
    pub fn drain_up_to(&mut self, source: &mut Receiver<InboundEvent>, limit: usize) -> (report:
        DrainReport)
        ensures
            exists|events: Seq<InboundEvent>| explains(events, old(self)@, final(self)@, report),
            report.undecodable <= report.received <= limit,
            report.signal is Limit <==> report.received == limit,
            report.received == 0 ==> final(self)@ == old(self)@,
            old(self)@.dom().subset_of(final(self)@.dom()),
            bound_of(*final(source)) == bound_of(*old(source)),
    {
        let ghost mut taken: Seq<InboundEvent> = Seq::empty();
        let mut received: usize = 0;
        let mut undecodable: usize = 0;
        while received < limit
            invariant
                taken.len() == received,
                undecodable_count(taken) == undecodable,
                undecodable <= received <= limit,
                self@ == merged_all(old(self)@, taken),
                old(self)@.dom().subset_of(self@.dom()),
                bound_of(*source) == bound_of(*old(source)),
            decreases limit - received,
        {
            let next = try_receive(source);
            let ghost polled = next;
            match self.absorb(next) {
                Step::Merged(outcome) => {
                    proof {
                        let event = polled->Event_0;
                        lemma_merged_all_push(old(self)@, taken, event);
                        assert(taken.push(event).drop_last() =~= taken);
                        taken = taken.push(event);
                    }
                    received += 1;
                    if outcome == MergeOutcome::Undecodable {
                        undecodable += 1;
                    }
                },
                Step::Stop(signal) => {
                    let report = DrainReport { received, undecodable, signal };
                    assert(explains(taken, old(self)@, self@, report));
                    return report;
                },
            }
        }
        let report = DrainReport { received, undecodable, signal: DrainSignal::Limit };
        assert(explains(taken, old(self)@, self@, report));
        report
    }

    /// Drains the whole backlog: receives and merges until the channel reports
    /// that it is empty or closed.
    pub fn drain(&mut self, source: &mut Receiver<InboundEvent>) -> (report: DrainReport)
        ensures
            exists|events: Seq<InboundEvent>| explains(events, old(self)@, final(self)@, report),
            report.undecodable <= report.received,
            report.signal is Limit <==> report.received == usize::MAX,
            report.received == 0 ==> final(self)@ == old(self)@,
            old(self)@.dom().subset_of(final(self)@.dom()),
            bound_of(*final(source)) == bound_of(*old(source)),
    {
        self.drain_up_to(source, usize::MAX)
    }
}

} // verus!
