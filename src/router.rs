//! The router front-end: who sent a frame, what it asks for, and the
//! presence sets it maintains.

use vstd::prelude::*;
use crate::evaluator::{id_text, EEView, EE};
use crate::events::EESnapshotEvent;
use crate::table::same_bytes;

verus! {

/// The role of a peer, told by the prefix of its name.
#[derive(Clone, Copy, Debug, PartialEq, Eq, Structural)]
pub enum PeerRole {
    Client,
    Dispatcher,
    Ert,
}

/// The bytes of `client`.
pub open spec fn client_prefix() -> Seq<u8> {
    seq![99u8, 108u8, 105u8, 101u8, 110u8, 116u8]
}

/// The bytes of `dispatch`.
pub open spec fn dispatch_prefix() -> Seq<u8> {
    seq![100u8, 105u8, 115u8, 112u8, 97u8, 116u8, 99u8, 104u8]
}

/// The bytes of `ert`.
pub open spec fn ert_prefix() -> Seq<u8> {
    seq![101u8, 114u8, 116u8]
}

/// The bytes of `CONNECT`.
pub open spec fn connect_bytes() -> Seq<u8> {
    seq![67u8, 79u8, 78u8, 78u8, 69u8, 67u8, 84u8]
}

/// The bytes of `DISCONNECT`.
pub open spec fn disconnect_bytes() -> Seq<u8> {
    seq![68u8, 73u8, 83u8, 67u8, 79u8, 78u8, 78u8, 69u8, 67u8, 84u8]
}

pub open spec fn has_prefix(name: Seq<u8>, p: Seq<u8>) -> bool {
    p.len() <= name.len() && name.subrange(0, p.len() as int) == p
}

pub open spec fn role_of(name: Seq<u8>) -> Option<PeerRole> {
    if has_prefix(name, client_prefix()) {
        Some(PeerRole::Client)
    } else if has_prefix(name, dispatch_prefix()) {
        Some(PeerRole::Dispatcher)
    } else if has_prefix(name, ert_prefix()) {
        Some(PeerRole::Ert)
    } else {
        None
    }
}

fn starts_with(name: &Vec<u8>, prefix: &[u8]) -> (r: bool)
    ensures
        r == has_prefix(name@, prefix@),
{
    let n = prefix.len();
    if n > name.len() {
        return false;
    }
    let mut i: usize = 0;
    while i < n
        invariant
            n == prefix@.len(),
            n <= name@.len(),
            i <= n,
            forall|j: int| 0 <= j < i ==> name@[j] == prefix@[j],
        decreases n - i,
    {
        if name[i] != prefix[i] {
            assert(name@.subrange(0, n as int)[i as int] != prefix@[i as int]);
            return false;
        }
        i = i + 1;
    }
    assert(name@.subrange(0, n as int) =~= prefix@);
    true
}

/// The role of the peer whose name frame is `name`.
pub fn classify_sender(name: &Vec<u8>) -> (r: Option<PeerRole>)
    ensures
        r == role_of(name@),
{
    let client: [u8; 6] = [99, 108, 105, 101, 110, 116];
    let dispatch: [u8; 8] = [100, 105, 115, 112, 97, 116, 99, 104];
    let ert: [u8; 3] = [101, 114, 116];
    assert(client@ == client_prefix());
    assert(dispatch@ == dispatch_prefix());
    assert(ert@ == ert_prefix());
    if starts_with(name, &client) {
        Some(PeerRole::Client)
    } else if starts_with(name, &dispatch) {
        Some(PeerRole::Dispatcher)
    } else if starts_with(name, &ert) {
        Some(PeerRole::Ert)
    } else {
        None
    }
}

/// What a frame asks for, by its payload.
#[derive(Clone, Copy, Debug, PartialEq, Eq, Structural)]
pub enum PayloadKind {
    Connect,
    Disconnect,
    Message,
}

pub open spec fn kind_of(payload: Seq<u8>) -> PayloadKind {
    if payload == connect_bytes() {
        PayloadKind::Connect
    } else if payload == disconnect_bytes() {
        PayloadKind::Disconnect
    } else {
        PayloadKind::Message
    }
}

pub fn classify_payload(payload: &Vec<u8>) -> (r: PayloadKind)
    ensures
        r == kind_of(payload@),
{
    let connect: Vec<u8> = vec![67, 79, 78, 78, 69, 67, 84];
    let disconnect: Vec<u8> = vec![68, 73, 83, 67, 79, 78, 78, 69, 67, 84];
    assert(connect@ =~= connect_bytes());
    assert(disconnect@ =~= disconnect_bytes());
    if same_bytes(payload, &connect) {
        PayloadKind::Connect
    } else if same_bytes(payload, &disconnect) {
        PayloadKind::Disconnect
    } else {
        PayloadKind::Message
    }
}

/// The presence change of a CONNECT from a peer of role `role`.
pub open spec fn connect_step(v: EEView, role: PeerRole, id: Seq<u8>) -> EEView {
    match role {
        PeerRole::Client => EEView { clients: v.clients.insert(id), ..v },
        PeerRole::Dispatcher => EEView { dispatchers: v.dispatchers.insert(id), ..v },
        PeerRole::Ert => EEView { ert_identity: Some(id), ..v },
    }
}

/// The presence change of a DISCONNECT from a peer of role `role`.
pub open spec fn disconnect_step(v: EEView, role: PeerRole, id: Seq<u8>) -> EEView {
    match role {
        PeerRole::Client => EEView { clients: v.clients.remove(id), ..v },
        PeerRole::Dispatcher => EEView { dispatchers: v.dispatchers.remove(id), ..v },
        PeerRole::Ert => EEView { ert_identity: None, ..v },
    }
}

/// Whether a CONNECT from this peer replaces a presence already held.
pub open spec fn is_reconnect(v: EEView, role: PeerRole, id: Seq<u8>) -> bool {
    match role {
        PeerRole::Client => v.clients.contains(id),
        PeerRole::Dispatcher => v.dispatchers.contains(id),
        PeerRole::Ert => v.ert_identity is Some,
    }
}

/// The outcome of one inbound frame.
#[derive(Debug)]
pub enum Inbound {
    /// Malformed, or from a peer of no known role: no reply, nothing changed.
    Dropped,
    /// A CONNECT; a client also gets the full snapshot.
    Connected {
        sender: Vec<u8>,
        role: PeerRole,
        reconnect: bool,
        full_snapshot: Option<EESnapshotEvent>,
    },
    Disconnected { sender: Vec<u8>, role: PeerRole },
    /// An event for the caller to decode and hand back by role.
    Payload { sender: Vec<u8>, role: PeerRole, payload: Vec<u8> },
}

impl Inbound {
    /// The identity that gets the ACK reply: exactly the accepted frames.
    pub open spec fn ack_spec(&self) -> Option<Seq<u8>> {
        match self {
            Inbound::Dropped => None,
            Inbound::Connected { sender, .. } => Some(sender@),
            Inbound::Disconnected { sender, .. } => Some(sender@),
            Inbound::Payload { sender, .. } => Some(sender@),
        }
    }

    pub fn ack_target(&self) -> (r: Option<&Vec<u8>>)
        ensures
            match r {
                Some(s) => self.ack_spec() == Some(s@),
                None => self.ack_spec() is None,
            },
    {
        match self {
            Inbound::Dropped => None,
            Inbound::Connected { sender, .. } => Some(sender),
            Inbound::Disconnected { sender, .. } => Some(sender),
            Inbound::Payload { sender, .. } => Some(sender),
        }
    }
}

/// Whether a frame is accepted: it has its four parts and a known sender.
pub open spec fn accepted(frames: Seq<Vec<u8>>) -> bool {
    frames.len() >= 4 && role_of(frames[1]@) is Some
}

/// How a peer of role `role` with identity `id` is answered for `payload`,
/// and what it does to the evaluator, from `v` to `w`.
pub open spec fn answers(r: Inbound, v: EEView, w: EEView, role: PeerRole, id: Seq<u8>, payload: Seq<u8>) -> bool {
    &&& r.ack_spec() == Some(id)
    &&& match kind_of(payload) {
        PayloadKind::Connect => {
            &&& w == connect_step(v, role, id)
            &&& r matches Inbound::Connected { role: rr, reconnect, full_snapshot, .. }
            &&& rr == role
            &&& reconnect == is_reconnect(v, role, id)
            &&& (role == PeerRole::Client) == (full_snapshot is Some)
            &&& full_snapshot matches Some(f) ==> f.snapshot@ == v.main && f.ensemble@ == id_text(v.ensemble_id)
        },
        PayloadKind::Disconnect => {
            &&& w == disconnect_step(v, role, id)
            &&& r matches Inbound::Disconnected { role: rr, .. }
            &&& rr == role
        },
        PayloadKind::Message => {
            &&& w == v
            &&& r matches Inbound::Payload { role: rr, payload: p, .. }
            &&& rr == role
            &&& p@ == payload
        },
    }
}

impl EE {
    /// Registers a client and hands back the full snapshot it is owed.
    pub fn handle_client_connect(&mut self, identity: &Vec<u8>) -> (r: (bool, EESnapshotEvent))
        ensures
            r.0 == old(self)@.clients.contains(identity@),
            r.1.snapshot@ == old(self)@.main,
            r.1.ensemble@ == id_text(old(self)@.ensemble_id),
            final(self)@ == connect_step(old(self)@, PeerRole::Client, identity@),
    {
        let known = self.clients.contains(identity);
        self.clients.insert(identity.clone(), ());
        let ensemble = match &self.ensemble_id {
            Some(s) => s.clone(),
            None => String::new(),
        };
        let full = EESnapshotEvent::new(self.main_snapshot.duplicate(), ensemble);
        proof {
            assert(self@.clients =~= old(self)@.clients.insert(identity@));
            assert(self@ =~= connect_step(old(self)@, PeerRole::Client, identity@));
        }
        (known, full)
    }

    pub fn handle_client_disconnect(&mut self, identity: &Vec<u8>)
        ensures
            final(self)@ == disconnect_step(old(self)@, PeerRole::Client, identity@),
    {
        self.clients.remove(identity);
        assert(self@.clients =~= old(self)@.clients.remove(identity@));
    }

    pub fn handle_dispatcher_connect(&mut self, identity: &Vec<u8>)
        ensures
            final(self)@ == connect_step(old(self)@, PeerRole::Dispatcher, identity@),
    {
        self.dispatchers.insert(identity.clone(), ());
        assert(self@.dispatchers =~= old(self)@.dispatchers.insert(identity@));
    }

    pub fn handle_dispatcher_disconnect(&mut self, identity: &Vec<u8>)
        ensures
            final(self)@ == disconnect_step(old(self)@, PeerRole::Dispatcher, identity@),
    {
        self.dispatchers.remove(identity);
        assert(self@.dispatchers =~= old(self)@.dispatchers.remove(identity@));
    }

    /// The orchestrator identity is single: the last CONNECT wins.
    pub fn handle_ert_connect(&mut self, identity: &Vec<u8>)
        ensures
            final(self)@ == connect_step(old(self)@, PeerRole::Ert, identity@),
    {
        let id = identity.clone();
        assert(id@ =~= identity@);
        self.ert_identity = Some(id);
    }

    pub fn handle_ert_disconnect(&mut self)
        ensures
            final(self)@ == disconnect_step(old(self)@, PeerRole::Ert, Seq::empty()),
    {
        self.ert_identity = None;
    }

    /// A frame from a peer of role `role` with identity `identity`:
    /// CONNECT and DISCONNECT change the presence sets, other payloads come
    /// back to be decoded.
    fn handle_peer(&mut self, role: PeerRole, identity: &Vec<u8>, payload: &Vec<u8>) -> (r: Inbound)
        ensures
            answers(r, old(self)@, final(self)@, role, identity@, payload@),
    {
        let sender = identity.clone();
        assert(sender@ =~= identity@);
        match classify_payload(payload) {
            PayloadKind::Connect => {
                match role {
                    PeerRole::Client => {
                        let (reconnect, full) = self.handle_client_connect(identity);
                        Inbound::Connected { sender, role, reconnect, full_snapshot: Some(full) }
                    },
                    PeerRole::Dispatcher => {
                        let reconnect = self.dispatchers.contains(identity);
                        self.handle_dispatcher_connect(identity);
                        Inbound::Connected { sender, role, reconnect, full_snapshot: None }
                    },
                    PeerRole::Ert => {
                        let reconnect = self.ert_identity.is_some();
                        self.handle_ert_connect(identity);
                        Inbound::Connected { sender, role, reconnect, full_snapshot: None }
                    },
                }
            },
            PayloadKind::Disconnect => {
                match role {
                    PeerRole::Client => self.handle_client_disconnect(identity),
                    PeerRole::Dispatcher => self.handle_dispatcher_disconnect(identity),
                    PeerRole::Ert => self.handle_ert_disconnect(),
                }
                Inbound::Disconnected { sender, role }
            },
            PayloadKind::Message => {
                let copy = payload.clone();
                assert(copy@ =~= payload@);
                Inbound::Payload { sender, role, payload: copy }
            },
        }
    }

    /// A frame from a client; a CONNECT also gets the full snapshot.
    pub fn handle_client(&mut self, identity: &Vec<u8>, payload: &Vec<u8>) -> (r: Inbound)
        ensures
            answers(r, old(self)@, final(self)@, PeerRole::Client, identity@, payload@),
    {
        self.handle_peer(PeerRole::Client, identity, payload)
    }

    /// A frame from a dispatcher.
    pub fn handle_dispatch(&mut self, identity: &Vec<u8>, payload: &Vec<u8>) -> (r: Inbound)
        ensures
            answers(r, old(self)@, final(self)@, PeerRole::Dispatcher, identity@, payload@),
    {
        self.handle_peer(PeerRole::Dispatcher, identity, payload)
    }

    /// A frame from the orchestrator.
    pub fn handle_ert(&mut self, identity: &Vec<u8>, payload: &Vec<u8>) -> (r: Inbound)
        ensures
            answers(r, old(self)@, final(self)@, PeerRole::Ert, identity@, payload@),
    {
        self.handle_peer(PeerRole::Ert, identity, payload)
    }

    /// Takes one inbound multipart frame `[identity, name, empty, payload]`.
    /// Frames of a known role are acknowledged to their identity and handed
    /// to the handler of that role; the others are dropped untouched.
    pub fn handle_message(&mut self, frames: &Vec<Vec<u8>>) -> (r: Inbound)
        ensures
            r.ack_spec() == (if accepted(frames@) { Some(frames@[0]@) } else { None }),
            !accepted(frames@) ==> r is Dropped && final(self)@ == old(self)@,
            accepted(frames@) ==> answers(
                r,
                old(self)@,
                final(self)@,
                role_of(frames@[1]@).unwrap(),
                frames@[0]@,
                frames@[3]@,
            ),
    {
        if frames.len() < 4 {
            return Inbound::Dropped;
        }
        match classify_sender(&frames[1]) {
            Some(PeerRole::Client) => self.handle_client(&frames[0], &frames[3]),
            Some(PeerRole::Dispatcher) => self.handle_dispatch(&frames[0], &frames[3]),
            Some(PeerRole::Ert) => self.handle_ert(&frames[0], &frames[3]),
            None => Inbound::Dropped,
        }
    }
}

} // verus!
