//! Laws of the snapshot model and of the evaluator.

use vstd::prelude::*;
use crate::ensemble_snapshot::{
    apply_events, blank_ensemble, delta_of, merge_ensemble, synced, touches, EnsembleView,
    MAX_RUNTIME_MESSAGE,
};
use crate::evaluator::{client_step, dispatcher_step, enqueue, EEView, OutboundView};
use crate::events::{ClientEvent, DispatcherEvent, EEUserEvent, Event, ForwardModelStepChecksum};
use crate::fm_step_snapshot::{blank_fm_step, fm_step_of_event, merge_fm_step, FMStepSnapshot, FMStepView};
use crate::publisher::{envelope_of, reaches_clients, Envelope};
use crate::realization_snapshot::{
    blank_realization, merge_realization, RealizationSnapshot, RealizationView,
};
use crate::status::{ForwardModelStepStatus, RealizationState};
use crate::table::{merge_maps, value_or_blank};

verus! {

broadcast use vstd::seq_lib::group_to_multiset_ensures;

proof fn lemma_fm_blank_left(f: FMStepView)
    ensures
        merge_fm_step(blank_fm_step(), f) == f,
{
}

proof fn lemma_fm_idempotent(a: FMStepView, b: FMStepView)
    ensures
        merge_fm_step(merge_fm_step(a, b), b) == merge_fm_step(a, b),
{
}

proof fn lemma_realization_blank_left(r: RealizationView)
    ensures
        merge_realization(blank_realization(), r) == r,
{
    let m = merge_maps::<Seq<char>, FMStepSnapshot>(Map::empty(), r.fm_steps);
    assert forall|k: Seq<char>| #[trigger] m.contains_key(k) implies m[k] == r.fm_steps[k] by {
        lemma_fm_blank_left(r.fm_steps[k]);
    }
    assert(m =~= r.fm_steps);
}

proof fn lemma_realization_idempotent(a: RealizationView, b: RealizationView)
    ensures
        merge_realization(merge_realization(a, b), b) == merge_realization(a, b),
{
    let once = merge_maps::<Seq<char>, FMStepSnapshot>(a.fm_steps, b.fm_steps);
    let twice = merge_maps::<Seq<char>, FMStepSnapshot>(once, b.fm_steps);
    assert forall|k: Seq<char>| #[trigger] twice.contains_key(k) implies twice[k] == once[k] by {
        if b.fm_steps.contains_key(k) {
            lemma_fm_idempotent(value_or_blank::<Seq<char>, FMStepSnapshot>(a.fm_steps, k), b.fm_steps[k]);
        }
    }
    assert(twice =~= once);
}

/// Merging with the empty snapshot changes nothing, on either side.
pub proof fn lemma_merge_empty_identity(s: EnsembleView)
    ensures
        merge_ensemble(s, blank_ensemble()) == s,
        merge_ensemble(blank_ensemble(), s) == s,
{
    let e = blank_ensemble();
    assert(merge_maps::<Seq<char>, RealizationSnapshot>(s.realizations, e.realizations) =~= s.realizations);
    assert(merge_maps::<(Seq<char>, Seq<char>), FMStepSnapshot>(s.fm_steps, e.fm_steps) =~= s.fm_steps);
    let r = merge_maps::<Seq<char>, RealizationSnapshot>(e.realizations, s.realizations);
    assert forall|k: Seq<char>| #[trigger] r.contains_key(k) implies r[k] == s.realizations[k] by {
        lemma_realization_blank_left(s.realizations[k]);
    }
    assert(r =~= s.realizations);
    let f = merge_maps::<(Seq<char>, Seq<char>), FMStepSnapshot>(e.fm_steps, s.fm_steps);
    assert forall|k: (Seq<char>, Seq<char>)| #[trigger] f.contains_key(k) implies f[k] == s.fm_steps[k] by {
        lemma_fm_blank_left(s.fm_steps[k]);
    }
    assert(f =~= s.fm_steps);
}

/// Merging the same delta twice gives what merging it once gives.
pub proof fn lemma_merge_idempotent(s: EnsembleView, d: EnsembleView)
    ensures
        merge_ensemble(merge_ensemble(s, d), d) == merge_ensemble(s, d),
{
    let once = merge_ensemble(s, d);
    let twice = merge_ensemble(once, d);
    assert forall|k: Seq<char>| #[trigger] twice.realizations.contains_key(k) implies twice.realizations[k]
        == once.realizations[k] by {
        if d.realizations.contains_key(k) {
            lemma_realization_idempotent(
                value_or_blank::<Seq<char>, RealizationSnapshot>(s.realizations, k),
                d.realizations[k],
            );
        }
    }
    assert(twice.realizations =~= once.realizations);
    assert forall|k: (Seq<char>, Seq<char>)| #[trigger] twice.fm_steps.contains_key(k) implies twice.fm_steps[k]
        == once.fm_steps[k] by {
        if d.fm_steps.contains_key(k) {
            lemma_fm_idempotent(
                value_or_blank::<(Seq<char>, Seq<char>), FMStepSnapshot>(s.fm_steps, k),
                d.fm_steps[k],
            );
        }
    }
    assert(twice.fm_steps =~= once.fm_steps);
}

/// A timeout of realization `r` marks, in the emitted delta, every step that
/// the source holds under `r` with a status other than `Failed` as failed
/// with the MAX_RUNTIME error.
pub proof fn lemma_timeout_cascade(source: EnsembleView, es: Seq<Event>)
    requires
        es.len() > 0,
        es.last() matches Event::RealizationEvent(x) && x.status == RealizationState::Timeout,
    ensures
        ({
            let x = es.last()->RealizationEvent_0;
            let emitted = synced(delta_of(source, es));
            forall|s: Seq<char>|
                source.realizations.contains_key(x.real@)
                    && #[trigger] source.realizations[x.real@].fm_steps.contains_key(s)
                    && source.realizations[x.real@].fm_steps[s].status != Some(ForwardModelStepStatus::Failed)
                    ==> {
                        &&& emitted.fm_steps.contains_key((x.real@, s))
                        &&& emitted.fm_steps[(x.real@, s)].status == Some(ForwardModelStepStatus::Failed)
                        &&& emitted.fm_steps[(x.real@, s)].error == Some(MAX_RUNTIME_MESSAGE@)
                    }
        }),
{
}

/// In the synced form every step of the flat index stands under its
/// realization.
pub proof fn lemma_synced_covers_flat_index(m: EnsembleView)
    ensures
        forall|k: (Seq<char>, Seq<char>)| #[trigger] m.fm_steps.contains_key(k) ==> {
            &&& synced(m).realizations.contains_key(k.0)
            &&& synced(m).realizations[k.0].fm_steps.contains_key(k.1)
        },
{
    assert forall|k: (Seq<char>, Seq<char>)| #[trigger] m.fm_steps.contains_key(k) implies {
        &&& synced(m).realizations.contains_key(k.0)
        &&& synced(m).realizations[k.0].fm_steps.contains_key(k.1)
    } by {
        assert(m.fm_steps.dom().contains((k.0, k.1)));
        assert(touches(m.fm_steps.dom(), k.0));
    }
}

/// The key of a step event.
pub open spec fn step_key(e: Event) -> (Seq<char>, Seq<char>) {
    match e {
        Event::FMEvent(x) => (x.real_key()@, x.step()@),
        _ => (Seq::empty(), Seq::empty()),
    }
}

pub open spec fn step_of(e: Event) -> FMStepView {
    match e {
        Event::FMEvent(x) => fm_step_of_event(x),
        _ => blank_fm_step(),
    }
}

pub open spec fn only_step_events(es: Seq<Event>) -> bool {
    forall|i: int| 0 <= i < es.len() ==> #[trigger] es[i] is FMEvent
}

pub open spec fn step_keys_distinct(es: Seq<Event>) -> bool {
    forall|i: int, j: int| 0 <= i < j < es.len() ==> step_key(es[i]) != step_key(es[j])
}

pub open spec fn has_step_key(es: Seq<Event>, k: (Seq<char>, Seq<char>), i: int) -> bool {
    0 <= i < es.len() && step_key(es[i]) == k
}

/// The flat index that step events with distinct keys stand for.
pub open spec fn steps_map(es: Seq<Event>) -> Map<(Seq<char>, Seq<char>), FMStepView> {
    Map::new(
        |k: (Seq<char>, Seq<char>)| exists|i: int| has_step_key(es, k, i),
        |k: (Seq<char>, Seq<char>)| step_of(es[choose|i: int| has_step_key(es, k, i)]),
    )
}

proof fn lemma_step_delta(source: EnsembleView, es: Seq<Event>)
    requires
        only_step_events(es),
        step_keys_distinct(es),
    ensures
        apply_events(blank_ensemble(), es, source) == (EnsembleView {
            fm_steps: steps_map(es),
            ..blank_ensemble()
        }),
    decreases es.len(),
{
    if es.len() == 0 {
        assert(steps_map(es) =~= Map::empty());
    } else {
        let prefix = es.drop_last();
        assert(only_step_events(prefix)) by {
            assert forall|i: int| 0 <= i < prefix.len() implies #[trigger] prefix[i] is FMEvent by {
                assert(prefix[i] == es[i]);
            }
        }
        assert(step_keys_distinct(prefix)) by {
            assert forall|i: int, j: int| 0 <= i < j < prefix.len() implies step_key(prefix[i]) != step_key(prefix[j]) by {
                assert(prefix[i] == es[i] && prefix[j] == es[j]);
            }
        }
        lemma_step_delta(source, prefix);
        let last = es.last();
        let n = es.len() - 1;
        assert(last is FMEvent) by {
            assert(es[n] is FMEvent);
        }
        let kl = step_key(last);
        let before = steps_map(prefix);
        assert(!before.contains_key(kl)) by {
            if before.contains_key(kl) {
                let i = choose|i: int| has_step_key(prefix, kl, i);
                assert(prefix[i] == es[i]);
                assert(step_key(es[i]) != step_key(es[n]));
            }
        }
        lemma_fm_blank_left(step_of(last));
        let want = steps_map(es);
        let got = before.insert(kl, step_of(last));
        assert forall|k: (Seq<char>, Seq<char>)| #[trigger] got.contains_key(k) == want.contains_key(k) by {
            if before.contains_key(k) {
                let i = choose|i: int| has_step_key(prefix, k, i);
                assert(prefix[i] == es[i]);
                assert(has_step_key(es, k, i));
            }
            if k == kl {
                assert(has_step_key(es, k, n));
            }
            if want.contains_key(k) && k != kl {
                let i = choose|i: int| has_step_key(es, k, i);
                assert(i != n);
                assert(prefix[i] == es[i]);
                assert(has_step_key(prefix, k, i));
            }
        }
        assert forall|k: (Seq<char>, Seq<char>)| #[trigger] got.contains_key(k) implies got[k] == want[k] by {
            let i = choose|i: int| has_step_key(es, k, i);
            if k == kl {
                if i != n {
                    assert(step_key(es[i]) != step_key(es[n]));
                }
            } else {
                assert(i != n);
                assert(prefix[i] == es[i]);
                assert(has_step_key(prefix, k, i));
                let j = choose|j: int| has_step_key(prefix, k, j);
                assert(prefix[j] == es[j]);
                if i < j {
                    assert(step_key(es[i]) != step_key(es[j]));
                } else if j < i {
                    assert(step_key(es[j]) != step_key(es[i]));
                }
            }
        }
        assert(got =~= want);
    }
}

proof fn lemma_steps_map_permutation(es: Seq<Event>, ps: Seq<Event>)
    requires
        es.to_multiset() == ps.to_multiset(),
        step_keys_distinct(es),
        step_keys_distinct(ps),
    ensures
        steps_map(es) == steps_map(ps),
{
    es.to_multiset_ensures();
    ps.to_multiset_ensures();
    let a = steps_map(es);
    let b = steps_map(ps);
    assert forall|k: (Seq<char>, Seq<char>)| #[trigger] a.contains_key(k) == b.contains_key(k) by {
        if a.contains_key(k) {
            let i = choose|i: int| has_step_key(es, k, i);
            assert(es.contains(es[i]));
            assert(es.to_multiset().count(es[i]) > 0);
            assert(ps.contains(es[i]));
            let j = choose|j: int| 0 <= j < ps.len() && ps[j] == es[i];
            assert(has_step_key(ps, k, j));
        }
        if b.contains_key(k) {
            let j = choose|j: int| has_step_key(ps, k, j);
            assert(ps.contains(ps[j]));
            assert(ps.to_multiset().count(ps[j]) > 0);
            assert(es.contains(ps[j]));
            let i = choose|i: int| 0 <= i < es.len() && es[i] == ps[j];
            assert(has_step_key(es, k, i));
        }
    }
    assert forall|k: (Seq<char>, Seq<char>)| #[trigger] a.contains_key(k) implies a[k] == b[k] by {
        let i = choose|i: int| has_step_key(es, k, i);
        let j = choose|j: int| has_step_key(ps, k, j);
        assert(ps.contains(ps[j]));
        assert(ps.to_multiset().count(ps[j]) > 0);
        assert(es.contains(ps[j]));
        let i2 = choose|i2: int| 0 <= i2 < es.len() && es[i2] == ps[j];
        if i < i2 {
            assert(step_key(es[i]) != step_key(es[i2]));
        } else if i2 < i {
            assert(step_key(es[i2]) != step_key(es[i]));
        }
    }
    assert(a =~= b);
}

proof fn lemma_permuted_keys_distinct(es: Seq<Event>, ps: Seq<Event>)
    requires
        es.to_multiset() == ps.to_multiset(),
        step_keys_distinct(es),
    ensures
        step_keys_distinct(ps),
{
    assert(es.no_duplicates()) by {
        assert forall|i: int, j: int| 0 <= i < es.len() && 0 <= j < es.len() && i != j implies es[i] != es[j] by {
            if i < j {
                assert(step_key(es[i]) != step_key(es[j]));
            } else {
                assert(step_key(es[j]) != step_key(es[i]));
            }
        }
    }
    es.lemma_multiset_has_no_duplicates();
    ps.lemma_multiset_has_no_duplicates_conv();
    es.to_multiset_ensures();
    ps.to_multiset_ensures();
    assert forall|a: int, b: int| 0 <= a < b < ps.len() implies step_key(ps[a]) != step_key(ps[b]) by {
        assert(ps.contains(ps[a]));
        assert(ps.to_multiset().count(ps[a]) > 0);
        assert(ps.contains(ps[b]));
        assert(ps.to_multiset().count(ps[b]) > 0);
        let i = choose|i: int| 0 <= i < es.len() && es[i] == ps[a];
        let j = choose|j: int| 0 <= j < es.len() && es[j] == ps[b];
        assert(ps[a] != ps[b]);
        if i < j {
            assert(step_key(es[i]) != step_key(es[j]));
        } else {
            assert(step_key(es[j]) != step_key(es[i]));
        }
    }
}

/// Step events for distinct steps give the same synced delta, and so the
/// same nested steps under every realization, in whatever order they come.
pub proof fn lemma_step_events_commute(source: EnsembleView, es: Seq<Event>, ps: Seq<Event>)
    requires
        only_step_events(es),
        es.to_multiset() == ps.to_multiset(),
        step_keys_distinct(es),
    ensures
        synced(delta_of(source, ps)) == synced(delta_of(source, es)),
        synced(delta_of(source, ps)).realizations == synced(delta_of(source, es)).realizations,
{
    es.to_multiset_ensures();
    ps.to_multiset_ensures();
    assert(only_step_events(ps)) by {
        assert forall|j: int| 0 <= j < ps.len() implies #[trigger] ps[j] is FMEvent by {
            assert(ps.contains(ps[j]));
            assert(ps.to_multiset().count(ps[j]) > 0);
            assert(es.contains(ps[j]));
            let i = choose|i: int| 0 <= i < es.len() && es[i] == ps[j];
            assert(es[i] is FMEvent);
        }
    }
    lemma_permuted_keys_distinct(es, ps);
    lemma_step_delta(source, es);
    lemma_step_delta(source, ps);
    lemma_steps_map_permutation(es, ps);
}

/// A checksum goes straight to the outbound queue: the event queue and the
/// main snapshot stay as they were.
pub proof fn lemma_checksum_bypasses_reducer(v: EEView, c: ForwardModelStepChecksum)
    ensures
        dispatcher_step(v, DispatcherEvent::ForwardModelStepChecksum(c)).events == v.events,
        dispatcher_step(v, DispatcherEvent::ForwardModelStepChecksum(c)).main == v.main,
        dispatcher_step(v, DispatcherEvent::ForwardModelStepChecksum(c)) == enqueue(
            v,
            OutboundView::Checksum { real: c.real@, checksums: c.checksums@ },
        ),
{
}

/// A done notice stops the evaluator and adds exactly one done notice to
/// the outbound queue, which goes to the orchestrator alone.
pub proof fn lemma_user_done_stops(v: EEView, u: EEUserEvent)
    ensures
        !client_step(v, ClientEvent::EEUserDone(u)).running,
        client_step(v, ClientEvent::EEUserDone(u)).outbound == v.outbound.push(
            OutboundView::UserDone { client: u.monitor@, time: u.time },
        ),
        envelope_of(OutboundView::UserDone { client: u.monitor@, time: u.time }) == Envelope::UserDone,
        !reaches_clients(OutboundView::UserDone { client: u.monitor@, time: u.time }),
{
}

} // verus!
