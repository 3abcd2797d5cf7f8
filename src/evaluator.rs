//! The evaluator's shared state and the reducer with its ensemble state
//! machine. Each method is one step of a worker; the workers' loops, their
//! sleeps and the socket live with the caller.

use vstd::prelude::*;
use crate::batch::{Batch, DestinationHandler};
use crate::ensemble_snapshot::{delta_of, merge_ensemble, synced, EnsembleSnapshot, EnsembleView};
use crate::events::{
    ClientEvent, DispatcherEvent, EECancelled, EESnapshotEvent, EEUserEvent, ErtEvent, Event,
    ForwardModelStepChecksum,
};
use crate::status::EnsembleState;
use crate::table::Table;
use crate::types::Timestamp;
use crate::queue;
use crate::queue::{queued_batches, queued_events, queued_outbound};
use crate::utils::{copy_text, text_view};
use crossbeam::queue::SegQueue;

verus! {

/// An event ready to be published.
#[derive(Debug)]
pub enum QueueEvents {
    HeartBeat,
    EnsembleSnapshot(EESnapshotEvent),
    FullEnsembleSnapshot(EESnapshotEvent),
    Checksum(ForwardModelStepChecksum),
    UserCancelledEE(EECancelled),
    UserDone(EEUserEvent),
}

/// An outbound event as a value.
pub enum OutboundView {
    HeartBeat,
    Snapshot { snapshot: EnsembleView, ensemble: Seq<char> },
    FullSnapshot { snapshot: EnsembleView, ensemble: Seq<char> },
    Checksum { real: Seq<char>, checksums: Seq<char> },
    UserCancelled { ensemble_id: Seq<char>, monitor: Option<Seq<char>> },
    UserDone { client: Seq<char>, time: Timestamp },
}

impl View for QueueEvents {
    type V = OutboundView;

    open spec fn view(&self) -> OutboundView {
        match self {
            QueueEvents::HeartBeat => OutboundView::HeartBeat,
            QueueEvents::EnsembleSnapshot(e) => OutboundView::Snapshot {
                snapshot: e.snapshot@,
                ensemble: e.ensemble@,
            },
            QueueEvents::FullEnsembleSnapshot(e) => OutboundView::FullSnapshot {
                snapshot: e.snapshot@,
                ensemble: e.ensemble@,
            },
            QueueEvents::Checksum(e) => OutboundView::Checksum { real: e.real@, checksums: e.checksums@ },
            QueueEvents::UserCancelledEE(e) => OutboundView::UserCancelled {
                ensemble_id: e.ensemble_id@,
                monitor: text_view(e.monitor),
            },
            QueueEvents::UserDone(e) => OutboundView::UserDone { client: e.monitor@, time: e.time },
        }
    }
}

/// The ensemble evaluator: peers, queues, the main snapshot and the
/// ensemble state machine.
pub struct EE {
    pub(crate) address: String,
    pub(crate) server_curve: Option<(Vec<u8>, Vec<u8>)>,
    pub(crate) running: bool,
    pub(crate) clients: Table<Vec<u8>, ()>,
    pub(crate) dispatchers: Table<Vec<u8>, ()>,
    pub(crate) ert_identity: Option<Vec<u8>>,
    pub(crate) events: SegQueue<Event>,
    pub(crate) batches: SegQueue<Batch>,
    pub(crate) outbound: SegQueue<QueueEvents>,
    pub(crate) ensemble_id: Option<String>,
    pub(crate) ensemble_status: EnsembleState,
    pub(crate) main_snapshot: EnsembleSnapshot,
    pub(crate) max_batch_size: usize,
    pub(crate) batching_interval_ms: u64,
}

/// The evaluator as a value.
pub struct EEView {
    pub address: Seq<char>,
    pub server_curve: Option<(Seq<u8>, Seq<u8>)>,
    pub running: bool,
    pub clients: Set<Seq<u8>>,
    pub dispatchers: Set<Seq<u8>>,
    pub ert_identity: Option<Seq<u8>>,
    pub events: Seq<Event>,
    pub batches: Seq<Batch>,
    pub outbound: Seq<OutboundView>,
    pub ensemble_id: Option<Seq<char>>,
    pub ensemble_status: EnsembleState,
    pub main: EnsembleView,
    pub max_batch_size: usize,
    pub batching_interval_ms: u64,
}

pub open spec fn key_pair_view(c: Option<(Vec<u8>, Vec<u8>)>) -> Option<(Seq<u8>, Seq<u8>)> {
    match c {
        Some((p, k)) => Some((p@, k@)),
        None => None,
    }
}

pub open spec fn bytes_view(b: Option<Vec<u8>>) -> Option<Seq<u8>> {
    match b {
        Some(v) => Some(v@),
        None => None,
    }
}

pub open spec fn outbound_view(q: Seq<QueueEvents>) -> Seq<OutboundView> {
    q.map_values(|e: QueueEvents| e@)
}

impl View for EE {
    type V = EEView;

    open(crate) spec fn view(&self) -> EEView {
        EEView {
            address: self.address@,
            server_curve: key_pair_view(self.server_curve),
            running: self.running,
            clients: self.clients@.dom(),
            dispatchers: self.dispatchers@.dom(),
            ert_identity: bytes_view(self.ert_identity),
            events: queued_events(self.events),
            batches: queued_batches(self.batches),
            outbound: outbound_view(queued_outbound(self.outbound)),
            ensemble_id: text_view(self.ensemble_id),
            ensemble_status: self.ensemble_status,
            main: self.main_snapshot@,
            max_batch_size: self.max_batch_size,
            batching_interval_ms: self.batching_interval_ms,
        }
    }
}

/// The ensemble id as sent out: empty while none is known.
pub open spec fn id_text(id: Option<Seq<char>>) -> Seq<char> {
    match id {
        Some(s) => s,
        None => Seq::empty(),
    }
}

/// `v` with `e` appended to the outbound queue.
pub open spec fn enqueue(v: EEView, e: OutboundView) -> EEView {
    EEView { outbound: v.outbound.push(e), ..v }
}

/// Derive the delta of `es` against the main snapshot, merge it into main,
/// and emit its synced form.
pub open spec fn apply_and_emit(v: EEView, es: Seq<Event>) -> EEView {
    let d = delta_of(v.main, es);
    EEView {
        main: merge_ensemble(v.main, d),
        outbound: v.outbound.push(OutboundView::Snapshot { snapshot: synced(d), ensemble: id_text(v.ensemble_id) }),
        ..v
    }
}

/// The ensemble id carried by the first event, when it is an ensemble event.
pub open spec fn first_ensemble_id(es: Seq<Event>) -> Option<Seq<char>> {
    if es.len() > 0 {
        match es[0] {
            Event::EnsembleEvent(x) => Some(x.ensemble@),
            _ => None,
        }
    } else {
        None
    }
}

pub open spec fn started_step(v: EEView, es: Seq<Event>) -> EEView {
    let v1 = match first_ensemble_id(es) {
        Some(id) => EEView { ensemble_id: Some(id), ..v },
        None => v,
    };
    if v.ensemble_status != EnsembleState::Failed {
        EEView { ensemble_status: EnsembleState::Started, ..apply_and_emit(v1, es) }
    } else {
        v1
    }
}

pub open spec fn succeeded_step(v: EEView, es: Seq<Event>) -> EEView {
    if v.ensemble_status == EnsembleState::Failed {
        v
    } else {
        EEView { ensemble_status: EnsembleState::Stopped, ..apply_and_emit(v, es) }
    }
}

/// The cancel signal: a cancel request for the ensemble goes out, and the
/// evaluator stops.
pub open spec fn cancel_step(v: EEView, monitor: Option<Seq<char>>) -> EEView {
    EEView {
        running: false,
        ..enqueue(v, OutboundView::UserCancelled { ensemble_id: id_text(v.ensemble_id), monitor })
    }
}

pub open spec fn failed_step(v: EEView, es: Seq<Event>) -> EEView {
    if v.ensemble_status == EnsembleState::Failed || v.ensemble_status == EnsembleState::Cancelled {
        v
    } else {
        EEView { ensemble_status: EnsembleState::Failed, ..cancel_step(apply_and_emit(v, es), None) }
    }
}

pub open spec fn cancelled_step(v: EEView, es: Seq<Event>) -> EEView {
    if v.ensemble_status == EnsembleState::Failed {
        v
    } else {
        EEView { ensemble_status: EnsembleState::Cancelled, running: false, ..apply_and_emit(v, es) }
    }
}

/// Main after merging every snapshot that `es` carries, in order.
pub open spec fn merge_carried(m: EnsembleView, es: Seq<Event>) -> EnsembleView
    decreases es.len(),
{
    if es.len() == 0 {
        m
    } else {
        let acc = merge_carried(m, es.drop_last());
        match es.last() {
            Event::EESnapshotUpdateEvent(x) => merge_ensemble(acc, x.snapshot@),
            Event::EEFullSnapshotEvent(x) => merge_ensemble(acc, x.snapshot@),
            _ => acc,
        }
    }
}

pub open spec fn snapshot_step(v: EEView, es: Seq<Event>) -> EEView {
    let m = merge_carried(v.main, es);
    EEView {
        main: m,
        outbound: v.outbound.push(OutboundView::Snapshot { snapshot: m, ensemble: id_text(v.ensemble_id) }),
        ..v
    }
}

/// What the handler of `d` does with a non-empty group `es`.
pub open spec fn handler_step(v: EEView, d: DestinationHandler, es: Seq<Event>) -> EEView {
    if es.len() == 0 {
        v
    } else {
        match d {
            DestinationHandler::FMHandler => apply_and_emit(v, es),
            DestinationHandler::EnsembleStarted => started_step(v, es),
            DestinationHandler::EnsembleSucceeded => succeeded_step(v, es),
            DestinationHandler::EnsembleFailed => failed_step(v, es),
            DestinationHandler::EnsembleCancelled => cancelled_step(v, es),
            DestinationHandler::EESnapshotUpdate => snapshot_step(v, es),
            DestinationHandler::EEFullSnapshot => snapshot_step(v, es),
        }
    }
}

/// A whole batch: the groups in a fixed order of destinations.
pub open spec fn batch_step(v: EEView, b: Batch) -> EEView {
    let v1 = handler_step(v, DestinationHandler::FMHandler, b.events_for(DestinationHandler::FMHandler));
    let v2 = handler_step(v1, DestinationHandler::EnsembleStarted, b.events_for(DestinationHandler::EnsembleStarted));
    let v3 = handler_step(v2, DestinationHandler::EnsembleSucceeded, b.events_for(DestinationHandler::EnsembleSucceeded));
    let v4 = handler_step(v3, DestinationHandler::EnsembleFailed, b.events_for(DestinationHandler::EnsembleFailed));
    let v5 = handler_step(v4, DestinationHandler::EnsembleCancelled, b.events_for(DestinationHandler::EnsembleCancelled));
    let v6 = handler_step(v5, DestinationHandler::EESnapshotUpdate, b.events_for(DestinationHandler::EESnapshotUpdate));
    handler_step(v6, DestinationHandler::EEFullSnapshot, b.events_for(DestinationHandler::EEFullSnapshot))
}

/// Where a decoded dispatcher event goes: step and ensemble events to the
/// event queue, checksums straight to the outbound queue.
pub open spec fn dispatcher_step(v: EEView, event: DispatcherEvent) -> EEView {
    match event {
        DispatcherEvent::ForwardModelStep(e) => EEView {
            events: v.events.push(Event::FMEvent(e)),
            ..v
        },
        DispatcherEvent::Ensemble(e) => EEView {
            events: v.events.push(Event::EnsembleEvent(e)),
            ..v
        },
        DispatcherEvent::ForwardModelStepChecksum(c) => enqueue(
            v,
            OutboundView::Checksum { real: c.real@, checksums: c.checksums@ },
        ),
    }
}

/// Where a decoded orchestrator event goes: to the event queue; a snapshot
/// also sets the ensemble id to the one it carries.
pub open spec fn ert_step(v: EEView, event: ErtEvent) -> EEView {
    match event {
        ErtEvent::Realization(e) => EEView {
            events: v.events.push(Event::RealizationEvent(e)),
            ..v
        },
        ErtEvent::EESnapshotUpdate(e) => EEView {
            events: v.events.push(Event::EESnapshotUpdateEvent(e)),
            ensemble_id: Some(e.ensemble@),
            ..v
        },
        ErtEvent::EEFullSnapshot(e) => EEView {
            events: v.events.push(Event::EEFullSnapshotEvent(e)),
            ensemble_id: Some(e.ensemble@),
            ..v
        },
    }
}

/// What a decoded client event does: a cancel request takes the cancel
/// path; a done notice is passed on to the orchestrator and stops.
pub open spec fn client_step(v: EEView, event: ClientEvent) -> EEView {
    match event {
        ClientEvent::EEUserCancel(c) => cancel_step(v, text_view(c.monitor)),
        ClientEvent::EEUserDone(u) => EEView {
            running: false,
            ..enqueue(v, OutboundView::UserDone { client: u.monitor@, time: u.time })
        },
    }
}

pub const DEFAULT_MAX_BATCH_SIZE: usize = 500;

pub const DEFAULT_BATCHING_INTERVAL_MS: u64 = 1000;

/// Backlog of the event queue above which the batcher warns.
pub const EVENT_BACKLOG_WARNING: usize = 500;

impl EE {
    pub fn new(address: String, server_curve: Option<(Vec<u8>, Vec<u8>)>) -> (r: Self)
        ensures
            r@.address == address@,
            r@.server_curve == key_pair_view(server_curve),
            r@.running,
            r@.clients == Set::<Seq<u8>>::empty(),
            r@.dispatchers == Set::<Seq<u8>>::empty(),
            r@.ert_identity is None,
            r@.events == Seq::<Event>::empty(),
            r@.batches == Seq::<Batch>::empty(),
            r@.outbound == Seq::<OutboundView>::empty(),
            r@.ensemble_id is None,
            r@.ensemble_status == EnsembleState::Unknown,
            r@.main == crate::ensemble_snapshot::blank_ensemble(),
            r@.max_batch_size == DEFAULT_MAX_BATCH_SIZE,
            r@.batching_interval_ms == DEFAULT_BATCHING_INTERVAL_MS,
    {
        let r = EE {
            address,
            server_curve,
            running: true,
            clients: Table::new(),
            dispatchers: Table::new(),
            ert_identity: None,
            events: queue::new_event_queue(),
            batches: queue::new_batch_queue(),
            outbound: queue::new_outbound_queue(),
            ensemble_id: None,
            ensemble_status: EnsembleState::Unknown,
            main_snapshot: EnsembleSnapshot::new(),
            max_batch_size: DEFAULT_MAX_BATCH_SIZE,
            batching_interval_ms: DEFAULT_BATCHING_INTERVAL_MS,
        };
        assert(r@.clients =~= Set::<Seq<u8>>::empty());
        assert(r@.dispatchers =~= Set::<Seq<u8>>::empty());
        assert(r@.outbound =~= Seq::<OutboundView>::empty());
        r
    }

    pub fn address(&self) -> (r: &String)
        ensures
            r@ == self@.address,
    {
        &self.address
    }

    pub fn server_curve(&self) -> (r: &Option<(Vec<u8>, Vec<u8>)>)
        ensures
            key_pair_view(*r) == self@.server_curve,
    {
        &self.server_curve
    }

    /// The orchestrator's identity, when one is connected.
    pub fn ert_identity(&self) -> (r: Option<&Vec<u8>>)
        ensures
            match r {
                Some(id) => self@.ert_identity == Some(id@),
                None => self@.ert_identity is None,
            },
    {
        self.ert_identity.as_ref()
    }

    pub fn is_running(&self) -> (r: bool)
        ensures
            r == self@.running,
    {
        self.running
    }

    /// Stops the evaluator; the workers drain their queues and exit.
    pub fn stop(&mut self)
        ensures
            final(self)@ == (EEView { running: false, ..old(self)@ }),
    {
        self.running = false;
    }

    pub fn ensemble_state(&self) -> (r: EnsembleState)
        ensures
            r == self@.ensemble_status,
    {
        self.ensemble_status
    }

    pub fn ensemble_id(&self) -> (r: Option<String>)
        ensures
            text_view(r) == self@.ensemble_id,
    {
        copy_text(&self.ensemble_id)
    }

    pub fn main_snapshot(&self) -> (r: &EnsembleSnapshot)
        ensures
            r@ == self@.main,
    {
        &self.main_snapshot
    }

    pub fn max_batch_size(&self) -> (r: usize)
        ensures
            r == self@.max_batch_size,
    {
        self.max_batch_size
    }

    pub fn batching_interval_ms(&self) -> (r: u64)
        ensures
            r == self@.batching_interval_ms,
    {
        self.batching_interval_ms
    }

    /// Routes a decoded dispatcher event: step and ensemble events go to the
    /// event queue, checksums straight to the outbound queue.
    pub fn handle_event_from_dispatcher(&mut self, event: DispatcherEvent)
        ensures
            final(self)@ == dispatcher_step(old(self)@, event),
    {
        match event {
            DispatcherEvent::ForwardModelStep(e) => {
                queue::push_event(&mut self.events, Event::FMEvent(e));
            },
            DispatcherEvent::Ensemble(e) => {
                queue::push_event(&mut self.events, Event::EnsembleEvent(e));
            },
            DispatcherEvent::ForwardModelStepChecksum(c) => {
                self.push_outbound(QueueEvents::Checksum(c));
            },
        }
    }

    /// Routes a decoded orchestrator event to the event queue; a snapshot
    /// also sets the ensemble id to the one it carries.
    pub fn handle_event_from_ert(&mut self, event: ErtEvent)
        ensures
            final(self)@ == ert_step(old(self)@, event),
    {
        match event {
            ErtEvent::Realization(e) => {
                queue::push_event(&mut self.events, Event::RealizationEvent(e));
            },
            ErtEvent::EESnapshotUpdate(e) => {
                self.ensemble_id = Some(e.ensemble.clone());
                queue::push_event(&mut self.events, Event::EESnapshotUpdateEvent(e));
            },
            ErtEvent::EEFullSnapshot(e) => {
                self.ensemble_id = Some(e.ensemble.clone());
                queue::push_event(&mut self.events, Event::EEFullSnapshotEvent(e));
            },
        }
    }

    /// A client's cancel request takes the cancel path; a client's done
    /// notice is passed on to the orchestrator and stops the evaluator.
    pub fn handle_event_from_client(&mut self, event: ClientEvent)
        ensures
            final(self)@ == client_step(old(self)@, event),
    {
        match event {
            ClientEvent::EEUserCancel(c) => {
                self.signal_cancel(c.monitor);
            },
            ClientEvent::EEUserDone(u) => {
                self.push_outbound(QueueEvents::UserDone(u));
                self.running = false;
            },
        }
    }

    /// Takes the oldest event off the event queue.
    pub fn pop_event(&mut self) -> (r: Option<Event>)
        ensures
            old(self)@.events.len() == 0 ==> r is None && final(self)@ == old(self)@,
            old(self)@.events.len() > 0 ==> r == Some(old(self)@.events[0]) && final(self)@ == (EEView {
                events: old(self)@.events.drop_first(),
                ..old(self)@
            }),
    {
        queue::pop_event(&mut self.events)
    }

    pub fn events_len(&self) -> (r: usize)
        ensures
            r == self@.events.len(),
    {
        queue::event_count(&self.events)
    }

    /// Hands a closed batch window to the reducer; an empty batch is dropped.
    pub fn push_batch(&mut self, batch: Batch)
        ensures
            batch.holds_none() ==> final(self)@ == old(self)@,
            !batch.holds_none() ==> final(self)@ == (EEView {
                batches: old(self)@.batches.push(batch),
                ..old(self)@
            }),
    {
        if !batch.is_empty() {
            queue::push_batch(&mut self.batches, batch);
        }
    }

    pub fn batches_len(&self) -> (r: usize)
        ensures
            r == self@.batches.len(),
    {
        queue::batch_count(&self.batches)
    }

    /// Takes the oldest batch and runs the reducer on it; false when there
    /// was none.
    pub fn process_event_buffer(&mut self) -> (r: bool)
        ensures
            r == (old(self)@.batches.len() > 0),
            !r ==> final(self)@ == old(self)@,
            r ==> final(self)@ == batch_step(
                EEView { batches: old(self)@.batches.drop_first(), ..old(self)@ },
                old(self)@.batches[0],
            ),
    {
        match queue::pop_batch(&mut self.batches) {
            Some(batch) => {
                self.handle_batch(&batch);
                true
            },
            None => false,
        }
    }

    /// Takes the oldest outbound event.
    pub fn pop_outbound(&mut self) -> (r: Option<QueueEvents>)
        ensures
            old(self)@.outbound.len() == 0 ==> r is None && final(self)@ == old(self)@,
            old(self)@.outbound.len() > 0 ==> r is Some && r.unwrap()@ == old(self)@.outbound[0]
                && final(self)@ == (EEView { outbound: old(self)@.outbound.drop_first(), ..old(self)@ }),
    {
        let r = queue::pop_outbound(&mut self.outbound);
        proof {
            if old(self)@.outbound.len() > 0 {
                assert(outbound_view(queued_outbound(self.outbound)) =~= old(self)@.outbound.drop_first());
            }
        }
        r
    }

    pub fn outbound_len(&self) -> (r: usize)
        ensures
            r == self@.outbound.len(),
    {
        queue::outbound_count(&self.outbound)
    }

    pub(crate) fn push_heartbeat(&mut self)
        ensures
            final(self)@ == enqueue(old(self)@, OutboundView::HeartBeat),
    {
        self.push_outbound(QueueEvents::HeartBeat);
    }

    fn push_outbound(&mut self, e: QueueEvents)
        ensures
            final(self)@ == enqueue(old(self)@, e@),
    {
        let ghost v = e@;
        queue::push_outbound(&mut self.outbound, e);
        proof {
            assert(outbound_view(queued_outbound(self.outbound)) =~= old(self)@.outbound.push(v));
        }
    }

    /// The ensemble id as sent out.
    fn current_ensemble_id(&self) -> (r: String)
        ensures
            r@ == id_text(self@.ensemble_id),
    {
        match &self.ensemble_id {
            Some(s) => s.clone(),
            None => String::new(),
        }
    }

    /// Enqueues a snapshot update for every subscriber.
    fn append_message(&mut self, snapshot: EnsembleSnapshot)
        ensures
            final(self)@ == enqueue(
                old(self)@,
                OutboundView::Snapshot { snapshot: snapshot@, ensemble: id_text(old(self)@.ensemble_id) },
            ),
    {
        let ensemble = self.current_ensemble_id();
        self.push_outbound(QueueEvents::EnsembleSnapshot(EESnapshotEvent::new(snapshot, ensemble)));
    }

    /// Sends a cancel request for the ensemble and stops.
    fn signal_cancel(&mut self, monitor: Option<String>)
        ensures
            final(self)@ == cancel_step(old(self)@, text_view(monitor)),
    {
        let cancelled = EECancelled { ensemble_id: self.current_ensemble_id(), monitor };
        self.push_outbound(QueueEvents::UserCancelledEE(cancelled));
        self.running = false;
    }

    fn create_update_snapshot_and_apply_to_main_snapshot(&mut self, events: &Vec<Event>)
        ensures
            final(self)@ == apply_and_emit(old(self)@, events@),
    {
        let delta = self.main_snapshot.update_snapshot(events);
        self.main_snapshot.update_from(&delta);
        let synced_delta = delta.create_new_with_synced_fm_steps_into_realizations();
        self.append_message(synced_delta);
    }

    fn started_handler(&mut self, events: &Vec<Event>)
        requires
            events@.len() > 0,
        ensures
            final(self)@ == started_step(old(self)@, events@),
    {
        let status = self.ensemble_status;
        match &events[0] {
            Event::EnsembleEvent(e) => {
                self.ensemble_id = Some(e.get_ensemble_id());
            },
            _ => {},
        }
        if status != EnsembleState::Failed {
            self.create_update_snapshot_and_apply_to_main_snapshot(events);
            self.ensemble_status = EnsembleState::Started;
        }
    }

    fn stopped_handler(&mut self, events: &Vec<Event>)
        ensures
            final(self)@ == succeeded_step(old(self)@, events@),
    {
        if self.ensemble_status == EnsembleState::Failed {
            return;
        }
        self.create_update_snapshot_and_apply_to_main_snapshot(events);
        self.ensemble_status = EnsembleState::Stopped;
    }

    fn failed_handler(&mut self, events: &Vec<Event>)
        ensures
            final(self)@ == failed_step(old(self)@, events@),
    {
        match self.ensemble_status {
            EnsembleState::Failed | EnsembleState::Cancelled => {},
            _ => {
                self.create_update_snapshot_and_apply_to_main_snapshot(events);
                self.signal_cancel(None);
                self.ensemble_status = EnsembleState::Failed;
            },
        }
    }

    fn cancelled_handler(&mut self, events: &Vec<Event>)
        ensures
            final(self)@ == cancelled_step(old(self)@, events@),
    {
        if self.ensemble_status != EnsembleState::Failed {
            self.create_update_snapshot_and_apply_to_main_snapshot(events);
            self.running = false;
            self.ensemble_status = EnsembleState::Cancelled;
        }
    }

    fn update_snapshot_handler(&mut self, events: &Vec<Event>)
        ensures
            final(self)@ == snapshot_step(old(self)@, events@),
    {
        let ghost m0 = self@.main;
        let n = events.len();
        let mut i: usize = 0;
        while i < n
            invariant
                n == events@.len(),
                i <= n,
                self@ == (EEView { main: merge_carried(m0, events@.subrange(0, i as int)), ..old(self)@ }),
            decreases n - i,
        {
            match &events[i] {
                Event::EESnapshotUpdateEvent(e) => {
                    self.main_snapshot.update_from(&e.snapshot);
                },
                Event::EEFullSnapshotEvent(e) => {
                    self.main_snapshot.update_from(&e.snapshot);
                },
                _ => {},
            }
            proof {
                let es = events@.subrange(0, i + 1);
                assert(es.drop_last() =~= events@.subrange(0, i as int));
            }
            i = i + 1;
        }
        assert(events@.subrange(0, n as int) =~= events@);
        let full = self.main_snapshot.duplicate();
        self.append_message(full);
    }

    fn run_handler(&mut self, d: DestinationHandler, events: &Vec<Event>)
        ensures
            final(self)@ == handler_step(old(self)@, d, events@),
    {
        if events.len() == 0 {
            return;
        }
        match d {
            DestinationHandler::FMHandler => self.create_update_snapshot_and_apply_to_main_snapshot(events),
            DestinationHandler::EnsembleStarted => self.started_handler(events),
            DestinationHandler::EnsembleSucceeded => self.stopped_handler(events),
            DestinationHandler::EnsembleFailed => self.failed_handler(events),
            DestinationHandler::EnsembleCancelled => self.cancelled_handler(events),
            DestinationHandler::EESnapshotUpdate => self.update_snapshot_handler(events),
            DestinationHandler::EEFullSnapshot => self.update_snapshot_handler(events),
        }
    }

    /// Runs every handler of the batch on its group of events.
    pub fn handle_batch(&mut self, batch: &Batch)
        ensures
            final(self)@ == batch_step(old(self)@, *batch),
    {
        self.run_handler(DestinationHandler::FMHandler, &batch.fm_events);
        self.run_handler(DestinationHandler::EnsembleStarted, &batch.started);
        self.run_handler(DestinationHandler::EnsembleSucceeded, &batch.succeeded);
        self.run_handler(DestinationHandler::EnsembleFailed, &batch.failed);
        self.run_handler(DestinationHandler::EnsembleCancelled, &batch.cancelled);
        self.run_handler(DestinationHandler::EESnapshotUpdate, &batch.snapshot_updates);
        self.run_handler(DestinationHandler::EEFullSnapshot, &batch.full_snapshots);
    }
}

} // verus!
