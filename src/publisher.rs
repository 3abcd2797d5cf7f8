//! The publisher's fan-out table and the heartbeat.

use vstd::prelude::*;
use crate::evaluator::{enqueue, OutboundView, QueueEvents, EE};

verus! {

/// How an outbound event is wrapped for the wire.
#[derive(Clone, Copy, Debug, PartialEq, Eq, Structural)]
pub enum Envelope {
    /// The four bytes `BEAT`.
    Beat,
    /// `{event_type: "ee.snapshot_update", snapshot, ensemble}`.
    SnapshotUpdate,
    /// `{event_type: "ee.snapshot", snapshot, ensemble}`.
    FullSnapshot,
    /// The checksum event as `forward_model_step.checksum`.
    Checksum,
    /// The cancel request as it is.
    Cancel,
    /// The done notice as `ee.user_done`.
    UserDone,
}

pub open spec fn envelope_of(e: OutboundView) -> Envelope {
    match e {
        OutboundView::HeartBeat => Envelope::Beat,
        OutboundView::Snapshot { .. } => Envelope::SnapshotUpdate,
        OutboundView::FullSnapshot { .. } => Envelope::FullSnapshot,
        OutboundView::Checksum { .. } => Envelope::Checksum,
        OutboundView::UserCancelled { .. } => Envelope::Cancel,
        OutboundView::UserDone { .. } => Envelope::UserDone,
    }
}

/// Cancel requests and done notices are for the orchestrator alone.
pub open spec fn reaches_clients(e: OutboundView) -> bool {
    !(e is UserCancelled || e is UserDone)
}

pub fn get_envelope(e: &QueueEvents) -> (r: Envelope)
    ensures
        r == envelope_of(e@),
{
    match e {
        QueueEvents::HeartBeat => Envelope::Beat,
        QueueEvents::EnsembleSnapshot(_) => Envelope::SnapshotUpdate,
        QueueEvents::FullEnsembleSnapshot(_) => Envelope::FullSnapshot,
        QueueEvents::Checksum(_) => Envelope::Checksum,
        QueueEvents::UserCancelledEE(_) => Envelope::Cancel,
        QueueEvents::UserDone(_) => Envelope::UserDone,
    }
}

/// One send: the peer and how the event is wrapped for it.
#[derive(Clone, Debug)]
pub struct Delivery {
    pub identity: Vec<u8>,
    pub envelope: Envelope,
}

/// The bytes of the heartbeat payload, `BEAT`.
pub fn heartbeat_payload() -> (r: Vec<u8>)
    ensures
        r@ == seq![66u8, 69u8, 65u8, 84u8],
{
    let r: Vec<u8> = vec![66, 69, 65, 84];
    assert(r@ =~= seq![66u8, 69u8, 65u8, 84u8]);
    r
}

/// The bytes of the acknowledgement, `ACK`.
pub fn ack_payload() -> (r: Vec<u8>)
    ensures
        r@ == seq![65u8, 67u8, 75u8],
{
    let r: Vec<u8> = vec![65, 67, 75];
    assert(r@ =~= seq![65u8, 67u8, 75u8]);
    r
}

impl EE {
    /// Whom an outbound event goes to: the orchestrator first, when one is
    /// connected, then every connected client the event is meant for.
    pub fn plan_delivery(&self, event: &QueueEvents) -> (r: Vec<Delivery>)
        ensures
            ({
                let k: int = if self@.ert_identity is Some { 1 } else { 0 };
                &&& k <= r@.len()
                &&& forall|i: int| 0 <= i < r@.len() ==> #[trigger] r@[i].envelope == envelope_of(event@)
                &&& self@.ert_identity matches Some(id) ==> r@[0].identity@ == id
                &&& !reaches_clients(event@) ==> r@.len() == k
                &&& forall|j: int| k <= j < r@.len() ==> self@.clients.contains(#[trigger] r@[j].identity@)
                &&& forall|a: int, b: int| k <= a < b < r@.len() ==> r@[a].identity@ != r@[b].identity@
                &&& reaches_clients(event@) ==> forall|id: Seq<u8>| #[trigger] self@.clients.contains(id)
                    ==> exists|j: int| k <= j < r@.len() && r@[j].identity@ == id
            }),
    {
        let envelope = get_envelope(event);
        let mut r: Vec<Delivery> = Vec::new();
        match &self.ert_identity {
            Some(id) => {
                let identity = id.clone();
                assert(identity@ =~= id@);
                r.push(Delivery { identity, envelope });
            },
            None => {},
        }
        let ghost k: int = r@.len() as int;
        let n = self.clients.size();
        let to_clients = match event {
            QueueEvents::UserCancelledEE(_) | QueueEvents::UserDone(_) => false,
            _ => true,
        };
        if to_clients {
            let mut i: usize = 0;
            while i < n
                invariant
                    n == self.clients.count(),
                    i <= n,
                    r@.len() == k + i,
                    k == (if self@.ert_identity is Some { 1int } else { 0 }),
                    forall|p: int| 0 <= p < r@.len() ==> #[trigger] r@[p].envelope == envelope,
                    self@.ert_identity matches Some(id) ==> r@[0].identity@ == id,
                    forall|j: int| 0 <= j < i ==> #[trigger] r@[k + j].identity@ == self.clients.key_at(j),
                    forall|p: int, q: int| 0 <= p < q < self.clients.count() ==> self.clients.key_at(p)
                        != self.clients.key_at(q),
                    forall|x: Seq<u8>| self.clients@.contains_key(x) <==> exists|p: int|
                        0 <= p < self.clients.count() && self.clients.key_at(p) == x,
                decreases n - i,
            {
                let (id, _) = self.clients.at(i);
                let identity = id.clone();
                assert(identity@ =~= id@);
                r.push(Delivery { identity, envelope });
                i = i + 1;
            }
            proof {
                assert forall|j: int| k <= j < r@.len() implies self@.clients.contains(#[trigger] r@[j].identity@) by {
                    assert(r@[k + (j - k)].identity@ == self.clients.key_at(j - k));
                }
                assert forall|a: int, b: int| k <= a < b < r@.len() implies r@[a].identity@ != r@[b].identity@ by {
                    assert(r@[k + (a - k)].identity@ == self.clients.key_at(a - k));
                    assert(r@[k + (b - k)].identity@ == self.clients.key_at(b - k));
                }
                assert forall|id: Seq<u8>| #[trigger] self@.clients.contains(id) implies exists|j: int|
                    k <= j < r@.len() && r@[j].identity@ == id by {
                    let p = choose|p: int| 0 <= p < self.clients.count() && self.clients.key_at(p) == id;
                    assert(r@[k + p].identity@ == self.clients.key_at(p));
                }
            }
        }
        r
    }

    /// One beat of the heartbeat worker: while any client is connected a
    /// heartbeat is enqueued. Tells whether one was.
    pub fn do_heartbeat_clients(&mut self) -> (r: bool)
        ensures
            r == exists|c: Seq<u8>| old(self)@.clients.contains(c),
            r ==> final(self)@ == enqueue(old(self)@, OutboundView::HeartBeat),
            !r ==> final(self)@ == old(self)@,
    {
        let n = self.clients.size();
        if n == 0 {
            return false;
        }
        proof {
            let c = self.clients.key_at(0);
            assert(self@.clients.contains(c));
        }
        self.push_heartbeat();
        true
    }
}

} // verus!
