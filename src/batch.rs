//! Grouping of events into batches, by the handler that consumes them.

use vstd::prelude::*;
use crate::events::Event;
use crate::status::EnsembleStatus;

verus! {

/// The reducer handler an event is routed to.
#[derive(Clone, Copy, Debug, PartialEq, Eq, Hash, Structural)]
pub enum DestinationHandler {
    FMHandler,
    EnsembleStarted,
    EnsembleSucceeded,
    EnsembleFailed,
    EnsembleCancelled,
    EESnapshotUpdate,
    EEFullSnapshot,
}

/// Step and realization events go to the step handler, ensemble events by
/// the state they carry, snapshots by their kind.
pub open spec fn destination_of(e: Event) -> DestinationHandler {
    match e {
        Event::FMEvent(_) => DestinationHandler::FMHandler,
        Event::RealizationEvent(_) => DestinationHandler::FMHandler,
        Event::EnsembleEvent(x) => match x.status {
            EnsembleStatus::Cancelled => DestinationHandler::EnsembleCancelled,
            EnsembleStatus::Failed => DestinationHandler::EnsembleFailed,
            EnsembleStatus::Succeeded => DestinationHandler::EnsembleSucceeded,
            EnsembleStatus::Started => DestinationHandler::EnsembleStarted,
            EnsembleStatus::Unknown => DestinationHandler::EnsembleStarted,
        },
        Event::EESnapshotUpdateEvent(_) => DestinationHandler::EESnapshotUpdate,
        Event::EEFullSnapshotEvent(_) => DestinationHandler::EEFullSnapshot,
    }
}

pub fn get_destination(e: &Event) -> (r: DestinationHandler)
    ensures
        r == destination_of(*e),
{
    match e {
        Event::FMEvent(_) => DestinationHandler::FMHandler,
        Event::RealizationEvent(_) => DestinationHandler::FMHandler,
        Event::EnsembleEvent(x) => match x.status {
            EnsembleStatus::Cancelled => DestinationHandler::EnsembleCancelled,
            EnsembleStatus::Failed => DestinationHandler::EnsembleFailed,
            EnsembleStatus::Succeeded => DestinationHandler::EnsembleSucceeded,
            EnsembleStatus::Started => DestinationHandler::EnsembleStarted,
            EnsembleStatus::Unknown => DestinationHandler::EnsembleStarted,
        },
        Event::EESnapshotUpdateEvent(_) => DestinationHandler::EESnapshotUpdate,
        Event::EEFullSnapshotEvent(_) => DestinationHandler::EEFullSnapshot,
    }
}

/// Events grouped by destination, each group in arrival order.
#[derive(Debug)]
pub struct Batch {
    pub fm_events: Vec<Event>,
    pub started: Vec<Event>,
    pub succeeded: Vec<Event>,
    pub failed: Vec<Event>,
    pub cancelled: Vec<Event>,
    pub snapshot_updates: Vec<Event>,
    pub full_snapshots: Vec<Event>,
}

impl Batch {
    /// The events of the batch bound for `d`.
    pub open spec fn events_for(&self, d: DestinationHandler) -> Seq<Event> {
        match d {
            DestinationHandler::FMHandler => self.fm_events@,
            DestinationHandler::EnsembleStarted => self.started@,
            DestinationHandler::EnsembleSucceeded => self.succeeded@,
            DestinationHandler::EnsembleFailed => self.failed@,
            DestinationHandler::EnsembleCancelled => self.cancelled@,
            DestinationHandler::EESnapshotUpdate => self.snapshot_updates@,
            DestinationHandler::EEFullSnapshot => self.full_snapshots@,
        }
    }

    pub open spec fn holds_none(&self) -> bool {
        forall|d: DestinationHandler| #[trigger] self.events_for(d).len() == 0
    }

    pub fn new() -> (r: Self)
        ensures
            forall|d: DestinationHandler| #[trigger] r.events_for(d) == Seq::<Event>::empty(),
    {
        let r = Batch {
            fm_events: Vec::new(),
            started: Vec::new(),
            succeeded: Vec::new(),
            failed: Vec::new(),
            cancelled: Vec::new(),
            snapshot_updates: Vec::new(),
            full_snapshots: Vec::new(),
        };
        assert forall|d: DestinationHandler| #[trigger] r.events_for(d) == Seq::<Event>::empty() by {
            assert(r.events_for(d) =~= Seq::<Event>::empty());
        }
        r
    }

    /// Appends `e` to the group of its destination.
    pub fn add(&mut self, e: Event)
        ensures
            forall|d: DestinationHandler| #[trigger]
                final(self).events_for(d) == if d == destination_of(e) {
                    old(self).events_for(d).push(e)
                } else {
                    old(self).events_for(d)
                },
    {
        match get_destination(&e) {
            DestinationHandler::FMHandler => self.fm_events.push(e),
            DestinationHandler::EnsembleStarted => self.started.push(e),
            DestinationHandler::EnsembleSucceeded => self.succeeded.push(e),
            DestinationHandler::EnsembleFailed => self.failed.push(e),
            DestinationHandler::EnsembleCancelled => self.cancelled.push(e),
            DestinationHandler::EESnapshotUpdate => self.snapshot_updates.push(e),
            DestinationHandler::EEFullSnapshot => self.full_snapshots.push(e),
        }
    }

    pub fn is_empty(&self) -> (r: bool)
        ensures
            r == self.holds_none(),
    {
        let r = self.fm_events.len() == 0 && self.started.len() == 0 && self.succeeded.len() == 0
            && self.failed.len() == 0 && self.cancelled.len() == 0 && self.snapshot_updates.len() == 0
            && self.full_snapshots.len() == 0;
        proof {
            if !r {
                if self.fm_events.len() != 0 {
                    assert(self.events_for(DestinationHandler::FMHandler).len() != 0);
                } else if self.started.len() != 0 {
                    assert(self.events_for(DestinationHandler::EnsembleStarted).len() != 0);
                } else if self.succeeded.len() != 0 {
                    assert(self.events_for(DestinationHandler::EnsembleSucceeded).len() != 0);
                } else if self.failed.len() != 0 {
                    assert(self.events_for(DestinationHandler::EnsembleFailed).len() != 0);
                } else if self.cancelled.len() != 0 {
                    assert(self.events_for(DestinationHandler::EnsembleCancelled).len() != 0);
                } else if self.snapshot_updates.len() != 0 {
                    assert(self.events_for(DestinationHandler::EESnapshotUpdate).len() != 0);
                } else {
                    assert(self.events_for(DestinationHandler::EEFullSnapshot).len() != 0);
                }
            }
        }
        r
    }
}

/// One batch window of the batcher: it takes events until it holds
/// `max_batch_size` of them or its time is up.
pub struct BatchWindow {
    pub batch: Batch,
    pub count: usize,
    pub max_batch_size: usize,
    pub batching_interval_ms: u64,
}

impl BatchWindow {
    pub fn new(max_batch_size: usize, batching_interval_ms: u64) -> (r: Self)
        ensures
            r.count == 0,
            r.max_batch_size == max_batch_size,
            r.batching_interval_ms == batching_interval_ms,
            forall|d: DestinationHandler| #[trigger] r.batch.events_for(d) == Seq::<Event>::empty(),
    {
        BatchWindow { batch: Batch::new(), count: 0, max_batch_size, batching_interval_ms }
    }

    /// Whether the window still takes events, `elapsed_ms` after it opened.
    pub fn is_open(&self, elapsed_ms: u64) -> (r: bool)
        ensures
            r == (self.count < self.max_batch_size && elapsed_ms < self.batching_interval_ms),
    {
        self.count < self.max_batch_size && elapsed_ms < self.batching_interval_ms
    }

    /// Takes one event into the window.
    pub fn accept(&mut self, e: Event)
        requires
            old(self).count < old(self).max_batch_size,
        ensures
            final(self).count == old(self).count + 1,
            final(self).max_batch_size == old(self).max_batch_size,
            final(self).batching_interval_ms == old(self).batching_interval_ms,
            forall|d: DestinationHandler| #[trigger]
                final(self).batch.events_for(d) == if d == destination_of(e) {
                    old(self).batch.events_for(d).push(e)
                } else {
                    old(self).batch.events_for(d)
                },
    {
        self.batch.add(e);
        self.count = self.count + 1;
    }
}

} // verus!
