//! The ensemble snapshot: realizations, the flat step index, and the
//! ensemble state, with the rules that turn events into deltas.

use vstd::prelude::*;
use crate::events::{Event, ForwardModelStepEvent, RealizationEvent};
use crate::fm_step_snapshot::{
    blank_fm_step, fm_step_of_event, merge_fm_step, overwrite_if_set, FMStepSnapshot, FMStepView,
};
use crate::realization_snapshot::{
    blank_realization, realization_of_event, RealizationSnapshot, RealizationView,
};
use crate::status::{EnsembleStatus, ForwardModelStepStatus, RealizationState};
use crate::table::{merge_entry, merge_maps, value_or_blank, Mergeable, Table};
use crate::types::Timestamp;

verus! {

/// The error written into the steps of a realization that timed out.
pub const MAX_RUNTIME_MESSAGE: &'static str = "The run is cancelled due to reaching MAX_RUNTIME";

#[derive(Debug)]
pub struct EnsembleSnapshot {
    /// Realizations by id; the canonical form for full snapshots.
    pub realizations: Table<String, RealizationSnapshot>,
    /// Steps by (realization id, step id); the index the reducer works on.
    pub fm_steps: Table<(String, String), FMStepSnapshot>,
    pub ensemble_state: Option<EnsembleStatus>,
}

/// An ensemble snapshot as a value.
pub struct EnsembleView {
    pub realizations: Map<Seq<char>, RealizationView>,
    pub fm_steps: Map<(Seq<char>, Seq<char>), FMStepView>,
    pub ensemble_state: Option<EnsembleStatus>,
}

impl View for EnsembleSnapshot {
    type V = EnsembleView;

    open spec fn view(&self) -> EnsembleView {
        EnsembleView {
            realizations: self.realizations@,
            fm_steps: self.fm_steps@,
            ensemble_state: self.ensemble_state,
        }
    }
}

pub open spec fn blank_ensemble() -> EnsembleView {
    EnsembleView { realizations: Map::empty(), fm_steps: Map::empty(), ensemble_state: None }
}

/// The canonical merge of `b` into `a`.
pub open spec fn merge_ensemble(a: EnsembleView, b: EnsembleView) -> EnsembleView {
    EnsembleView {
        realizations: merge_maps::<Seq<char>, RealizationSnapshot>(a.realizations, b.realizations),
        fm_steps: merge_maps::<(Seq<char>, Seq<char>), FMStepSnapshot>(a.fm_steps, b.fm_steps),
        ensemble_state: overwrite_if_set(a.ensemble_state, b.ensemble_state),
    }
}

/// The step written over every unfailed step of a realization that timed out.
pub open spec fn timeout_step(t: Timestamp) -> FMStepView {
    FMStepView {
        status: Some(ForwardModelStepStatus::Failed),
        end_time: Some(t),
        error: Some(MAX_RUNTIME_MESSAGE@),
        ..blank_fm_step()
    }
}

/// Whether a timeout of realization `r` reaches the flat key `k`: the source
/// holds step `k.1` under `r`, and its status is not `Failed`.
pub open spec fn cascade_reaches(source: EnsembleView, r: Seq<char>, k: (Seq<char>, Seq<char>)) -> bool {
    &&& k.0 == r
    &&& source.realizations.contains_key(r)
    &&& source.realizations[r].fm_steps.contains_key(k.1)
    &&& source.realizations[r].fm_steps[k.1].status != Some(ForwardModelStepStatus::Failed)
}

/// The flat index after the timeout of realization `r` at time `t`.
pub open spec fn timeout_cascade(
    flat: Map<(Seq<char>, Seq<char>), FMStepView>,
    source: EnsembleView,
    r: Seq<char>,
    t: Timestamp,
) -> Map<(Seq<char>, Seq<char>), FMStepView> {
    Map::new(
        |k: (Seq<char>, Seq<char>)| flat.contains_key(k) || cascade_reaches(source, r, k),
        |k: (Seq<char>, Seq<char>)|
            if cascade_reaches(source, r, k) {
                merge_fm_step(value_or_blank::<(Seq<char>, Seq<char>), FMStepSnapshot>(flat, k), timeout_step(t))
            } else {
                flat[k]
            },
    )
}

pub open spec fn apply_fm(s: EnsembleView, e: ForwardModelStepEvent) -> EnsembleView {
    EnsembleView {
        fm_steps: merge_entry::<(Seq<char>, Seq<char>), FMStepSnapshot>(
            s.fm_steps,
            (e.real_key()@, e.step()@),
            fm_step_of_event(e),
        ),
        ..s
    }
}

pub open spec fn apply_realization(s: EnsembleView, e: RealizationEvent, source: EnsembleView) -> EnsembleView {
    let reals = merge_entry::<Seq<char>, RealizationSnapshot>(s.realizations, e.real@, realization_of_event(e));
    if e.status == RealizationState::Timeout {
        EnsembleView {
            realizations: reals,
            fm_steps: timeout_cascade(s.fm_steps, source, e.real@, e.time),
            ..s
        }
    } else {
        EnsembleView { realizations: reals, ..s }
    }
}

/// What one event does to a delta under construction; `source` is the
/// snapshot the delta is derived against.
pub open spec fn apply_event(s: EnsembleView, e: Event, source: EnsembleView) -> EnsembleView {
    match e {
        Event::EnsembleEvent(x) => EnsembleView { ensemble_state: Some(x.status), ..s },
        Event::FMEvent(x) => apply_fm(s, x),
        Event::RealizationEvent(x) => apply_realization(s, x, source),
        Event::EESnapshotUpdateEvent(x) => merge_ensemble(s, x.snapshot@),
        Event::EEFullSnapshotEvent(x) => merge_ensemble(s, x.snapshot@),
    }
}

pub open spec fn apply_events(s: EnsembleView, es: Seq<Event>, source: EnsembleView) -> EnsembleView
    decreases es.len(),
{
    if es.len() == 0 {
        s
    } else {
        apply_event(apply_events(s, es.drop_last(), source), es.last(), source)
    }
}

/// The delta that a list of events stands for against `source`.
pub open spec fn delta_of(source: EnsembleView, es: Seq<Event>) -> EnsembleView {
    apply_events(blank_ensemble(), es, source)
}

/// The steps of realization `r` once the flat keys in `ks` are synced into
/// it: steps it already holds stay, the others come from the flat index.
pub open spec fn synced_steps(
    m: EnsembleView,
    ks: Set<(Seq<char>, Seq<char>)>,
    r: Seq<char>,
) -> Map<Seq<char>, FMStepView> {
    let base = value_or_blank::<Seq<char>, RealizationSnapshot>(m.realizations, r).fm_steps;
    Map::new(
        |s: Seq<char>| base.contains_key(s) || ks.contains((r, s)),
        |s: Seq<char>|
            if base.contains_key(s) {
                base[s]
            } else {
                m.fm_steps[(r, s)]
            },
    )
}

pub open spec fn touches(ks: Set<(Seq<char>, Seq<char>)>, r: Seq<char>) -> bool {
    exists|s: Seq<char>| ks.contains((r, s))
}

/// The realizations once the flat keys in `ks` are synced into them,
/// creating realizations as needed.
pub open spec fn synced_realizations(m: EnsembleView, ks: Set<(Seq<char>, Seq<char>)>) -> Map<
    Seq<char>,
    RealizationView,
> {
    Map::new(
        |r: Seq<char>| m.realizations.contains_key(r) || touches(ks, r),
        |r: Seq<char>|
            if touches(ks, r) {
                RealizationView {
                    fm_steps: synced_steps(m, ks, r),
                    ..value_or_blank::<Seq<char>, RealizationSnapshot>(m.realizations, r)
                }
            } else {
                m.realizations[r]
            },
    )
}

/// The form of a snapshot that is sent out: every step of the flat index
/// also stands under its realization.
pub open spec fn synced(m: EnsembleView) -> EnsembleView {
    EnsembleView { realizations: synced_realizations(m, m.fm_steps.dom()), ..m }
}

/// The peak memory a step reported, zero when it reported none.
pub open spec fn peak_memory(f: FMStepView) -> i64 {
    match f.max_memory_usage {
        Some(m) => m,
        None => 0,
    }
}

impl EnsembleSnapshot {
    pub fn new() -> (r: Self)
        ensures
            r@ == blank_ensemble(),
    {
        EnsembleSnapshot { realizations: Table::new(), fm_steps: Table::new(), ensemble_state: None }
    }

    /// A copy of this snapshot.
    pub fn duplicate(&self) -> (r: Self)
        ensures
            r@ == self@,
    {
        EnsembleSnapshot {
            realizations: self.realizations.duplicate(),
            fm_steps: self.fm_steps.duplicate(),
            ensemble_state: self.ensemble_state,
        }
    }

    /// The largest peak memory over all steps of the flat index; -1 when
    /// there are no steps.
    pub fn max_memory_usage(&self) -> (r: i64)
        ensures
            forall|k: (Seq<char>, Seq<char>)| #[trigger] self@.fm_steps.contains_key(k) ==> peak_memory(
                self@.fm_steps[k],
            ) <= r,
            r == -1 || exists|k: (Seq<char>, Seq<char>)| #[trigger] self@.fm_steps.contains_key(k) && peak_memory(
                self@.fm_steps[k],
            ) == r,
            (forall|k: (Seq<char>, Seq<char>)| !#[trigger] self@.fm_steps.contains_key(k)) ==> r == -1,
    {
        let n = self.fm_steps.size();
        let mut best: i64 = -1;
        let mut i: usize = 0;
        while i < n
            invariant
                n == self.fm_steps.count(),
                i <= n,
                self.fm_steps.keys_below(n as int) == self@.fm_steps.dom(),
                forall|k: (Seq<char>, Seq<char>)| #[trigger] self.fm_steps.keys_below(i as int).contains(k)
                    ==> peak_memory(self@.fm_steps[k]) <= best,
                best == -1 || exists|k: (Seq<char>, Seq<char>)| #[trigger] self@.fm_steps.contains_key(k)
                    && peak_memory(self@.fm_steps[k]) == best,
                i == 0 ==> best == -1,
            decreases n - i,
        {
            let (key, step) = self.fm_steps.at(i);
            let m = match step.max_memory_usage {
                Some(m) => m,
                None => 0,
            };
            if m > best {
                best = m;
            }
            proof {
                assert(self.fm_steps.keys_below(i + 1) =~= self.fm_steps.keys_below(i as int).insert(key@));
            }
            i = i + 1;
        }
        proof {
            if n > 0 {
                let k0 = self.fm_steps.key_at(0);
                assert(self.fm_steps.keys_below(n as int).contains(k0));
            }
        }
        best
    }

    /// The ids of the realizations whose status is `Finished`, each once.
    pub fn get_successful_realizations(&self) -> (r: Vec<String>)
        ensures
            forall|id: Seq<char>|
                (exists|j: int| 0 <= j < r@.len() && #[trigger] r@[j]@ == id) <==> (self@.realizations.contains_key(id)
                    && self@.realizations[id].status == Some(RealizationState::Finished)),
            forall|a: int, b: int| 0 <= a < b < r@.len() ==> r@[a]@ != r@[b]@,
    {
        let n = self.realizations.size();
        let mut r: Vec<String> = Vec::new();
        let mut i: usize = 0;
        while i < n
            invariant
                n == self.realizations.count(),
                i <= n,
                self.realizations.keys_below(n as int) == self@.realizations.dom(),
                forall|p: int, q: int|
                    0 <= p < q < self.realizations.count() ==> self.realizations.key_at(p) != self.realizations.key_at(q),
                forall|id: Seq<char>|
                    (exists|j: int| 0 <= j < r@.len() && #[trigger] r@[j]@ == id) <==> (self.realizations.keys_below(i as int).contains(id)
                        && self@.realizations[id].status == Some(RealizationState::Finished)),
                forall|j: int| 0 <= j < r@.len() ==> #[trigger] self.realizations.keys_below(i as int).contains(r@[j]@),
                forall|a: int, b: int| 0 <= a < b < r@.len() ==> r@[a]@ != r@[b]@,
            decreases n - i,
        {
            let (id, held) = self.realizations.at(i);
            let ghost ks = self.realizations.keys_below(i as int);
            proof {
                assert(self.realizations.keys_below(i + 1) =~= ks.insert(id@));
                assert(!ks.contains(id@)) by {
                    if ks.contains(id@) {
                        let p = choose|p: int| 0 <= p < i && self.realizations.key_at(p) == id@;
                        assert(self.realizations.key_at(p) != self.realizations.key_at(i as int));
                    }
                }
            }
            let finished = match held.status {
                Some(RealizationState::Finished) => true,
                _ => false,
            };
            let ghost old_r = r@;
            assert(finished == (self@.realizations[id@].status == Some(RealizationState::Finished)));
            if finished {
                r.push(id.clone());
            }
            proof {
                let ks2 = self.realizations.keys_below(i + 1);
                assert forall|x: Seq<char>|
                    (exists|j: int| 0 <= j < r@.len() && #[trigger] r@[j]@ == x) <==> (ks2.contains(x)
                        && self@.realizations[x].status == Some(RealizationState::Finished)) by {
                    if exists|j: int| 0 <= j < r@.len() && #[trigger] r@[j]@ == x {
                        let j = choose|j: int| 0 <= j < r@.len() && #[trigger] r@[j]@ == x;
                        if j < old_r.len() {
                            assert(old_r[j]@ == x);
                        }
                    }
                    if ks2.contains(x) && self@.realizations[x].status == Some(RealizationState::Finished) {
                        if x == id@ {
                            assert(r@[r@.len() - 1]@ == x);
                        } else {
                            assert(ks.contains(x));
                            let j = choose|j: int| 0 <= j < old_r.len() && #[trigger] old_r[j]@ == x;
                            assert(r@[j]@ == x);
                        }
                    }
                }
                assert forall|j: int| 0 <= j < r@.len() implies #[trigger] ks2.contains(r@[j]@) by {
                    if j < old_r.len() {
                        assert(ks.contains(old_r[j]@));
                    }
                }
                assert forall|a: int, b: int| 0 <= a < b < r@.len() implies r@[a]@ != r@[b]@ by {
                    if b == old_r.len() {
                        assert(ks.contains(old_r[a]@));
                    }
                }
            }
            i = i + 1;
        }
        r
    }

    /// Merges `other` into this snapshot with the canonical rule.
    pub fn update_from(&mut self, other: &Self)
        ensures
            final(self)@ == merge_ensemble(old(self)@, other@),
    {
        if other.ensemble_state.is_some() {
            self.ensemble_state = other.ensemble_state;
        }
        self.realizations.merge_from(&other.realizations);
        self.fm_steps.merge_from(&other.fm_steps);
    }

    pub fn update_fm_from_event(&mut self, event: &ForwardModelStepEvent)
        ensures
            final(self)@ == apply_fm(old(self)@, *event),
    {
        let mut step = FMStepSnapshot::new();
        step.update_from_event(event);
        let key = (event.get_real_id(), event.get_fm_step_id());
        let mut cur = match self.fm_steps.get(&key) {
            Some(s) => s.duplicate(),
            None => FMStepSnapshot::new(),
        };
        cur.update_from(&step);
        self.fm_steps.insert(key, cur);
    }

    pub fn update_real_from_event(&mut self, event: &RealizationEvent, source: &EnsembleSnapshot)
        ensures
            final(self)@ == apply_realization(old(self)@, *event, source@),
    {
        let mut change = RealizationSnapshot::new();
        change.update_from_event(event);
        let mut cur = match self.realizations.get(&event.real) {
            Some(r) => r.duplicate(),
            None => RealizationSnapshot::new(),
        };
        cur.update_from(&change);
        self.realizations.insert(event.real.clone(), cur);
        if event.status == RealizationState::Timeout {
            self.handle_realization_timeout(event, source);
        }
    }

    fn handle_realization_timeout(&mut self, event: &RealizationEvent, source: &EnsembleSnapshot)
        requires
            event.status == RealizationState::Timeout,
        ensures
            final(self)@ == (EnsembleView {
                fm_steps: timeout_cascade(old(self)@.fm_steps, source@, event.real@, event.time),
                ..old(self)@
            }),
    {
        let ghost flat0 = self.fm_steps@;
        let ghost r = event.real@;
        let ghost t = event.time;
        let mut failed = FMStepSnapshot::new();
        failed.status = Some(ForwardModelStepStatus::Failed);
        failed.end_time = Some(event.time);
        failed.error = Some(String::from_str(MAX_RUNTIME_MESSAGE));
        assert(failed@ == timeout_step(t));
        match source.realizations.get(&event.real) {
            None => {
                assert(self.fm_steps@ =~= timeout_cascade(flat0, source@, r, t));
            },
            Some(held) => {
                let steps = &held.fm_steps;
                let n = steps.size();
                let mut i: usize = 0;
                while i < n
                    invariant
                        n == steps.count(),
                        i <= n,
                        steps@ == source@.realizations[r].fm_steps,
                        source@.realizations.contains_key(r),
                        forall|p: int, q: int| 0 <= p < q < steps.count() ==> steps.key_at(p) != steps.key_at(q),
                        steps.keys_below(n as int) == steps@.dom(),
                        failed@ == timeout_step(t),
                        r == event.real@,
                        t == event.time,
                        self.realizations@ == old(self)@.realizations,
                        self.ensemble_state == old(self).ensemble_state,
                        self.fm_steps@ == Map::new(
                            |k: (Seq<char>, Seq<char>)|
                                flat0.contains_key(k) || (cascade_reaches(source@, r, k)
                                    && steps.keys_below(i as int).contains(k.1)),
                            |k: (Seq<char>, Seq<char>)|
                                if cascade_reaches(source@, r, k) && steps.keys_below(i as int).contains(k.1) {
                                    merge_fm_step(
                                        value_or_blank::<(Seq<char>, Seq<char>), FMStepSnapshot>(flat0, k),
                                        timeout_step(t),
                                    )
                                } else {
                                    flat0[k]
                                },
                        ),
                    decreases n - i,
                {
                    let (sid, step) = steps.at(i);
                    let ghost before = self.fm_steps@;
                    let unfailed = match step.status {
                        Some(ForwardModelStepStatus::Failed) => false,
                        _ => true,
                    };
                    let ghost k0 = (r, sid@);
                    assert(cascade_reaches(source@, r, k0) == unfailed);
                    if unfailed {
                        let key = (event.real.clone(), sid.clone());
                        assert(key@ == k0);
                        let mut cur = match self.fm_steps.get(&key) {
                            Some(s) => s.duplicate(),
                            None => FMStepSnapshot::new(),
                        };
                        assert(!steps.keys_below(i as int).contains(sid@));
                        cur.update_from(&failed);
                        self.fm_steps.insert(key, cur);
                    }
                    proof {
                        assert(steps.keys_below(i + 1) =~= steps.keys_below(i as int).insert(sid@));
                        assert(!steps.keys_below(i as int).contains(sid@));
                        let want = Map::new(
                            |k: (Seq<char>, Seq<char>)|
                                flat0.contains_key(k) || (cascade_reaches(source@, r, k)
                                    && steps.keys_below(i + 1).contains(k.1)),
                            |k: (Seq<char>, Seq<char>)|
                                if cascade_reaches(source@, r, k) && steps.keys_below(i + 1).contains(k.1) {
                                    merge_fm_step(
                                        value_or_blank::<(Seq<char>, Seq<char>), FMStepSnapshot>(flat0, k),
                                        timeout_step(t),
                                    )
                                } else {
                                    flat0[k]
                                },
                        );
                        assert forall|k: (Seq<char>, Seq<char>)| #[trigger] self.fm_steps@.contains_key(k)
                            == want.contains_key(k) by {
                            if k != k0 {
                                assert(cascade_reaches(source@, r, k) && steps.keys_below(i + 1).contains(k.1)
                                    <==> cascade_reaches(source@, r, k) && steps.keys_below(i as int).contains(k.1));
                            }
                        }
                        assert forall|k: (Seq<char>, Seq<char>)| #[trigger] self.fm_steps@.contains_key(k)
                            implies self.fm_steps@[k] == want[k] by {
                            if k != k0 {
                                assert(cascade_reaches(source@, r, k) && steps.keys_below(i + 1).contains(k.1)
                                    <==> cascade_reaches(source@, r, k) && steps.keys_below(i as int).contains(k.1));
                            }
                        }
                        assert(self.fm_steps@ =~= want);
                    }
                    i = i + 1;
                }
                assert(self.fm_steps@ =~= timeout_cascade(flat0, source@, r, t));
            },
        }
    }

    /// A copy in which every step of the flat index also stands under its
    /// realization; steps a realization already holds are kept.
    pub fn create_new_with_synced_fm_steps_into_realizations(&self) -> (r: Self)
        ensures
            r@ == synced(self@),
    {
        let ghost m = self@;
        let mut out = self.duplicate();
        let n = self.fm_steps.size();
        let mut i: usize = 0;
        assert(out.realizations@ =~= synced_realizations(m, self.fm_steps.keys_below(0)));
        while i < n
            invariant
                m == self@,
                n == self.fm_steps.count(),
                i <= n,
                forall|p: int, q: int|
                    0 <= p < q < self.fm_steps.count() ==> self.fm_steps.key_at(p) != self.fm_steps.key_at(q),
                self.fm_steps.keys_below(n as int) == m.fm_steps.dom(),
                out.fm_steps@ == m.fm_steps,
                out.ensemble_state == m.ensemble_state,
                out.realizations@ == synced_realizations(m, self.fm_steps.keys_below(i as int)),
            decreases n - i,
        {
            let (key, step) = self.fm_steps.at(i);
            let ghost ks = self.fm_steps.keys_below(i as int);
            let ghost ks2 = self.fm_steps.keys_below(i + 1);
            let ghost r0 = key.0@;
            let ghost s0 = key.1@;
            let ghost before = out.realizations@;
            proof {
                assert(ks2 =~= ks.insert((r0, s0)));
                assert(!ks.contains((r0, s0)));
            }
            let mut held = match out.realizations.get(&key.0) {
                Some(x) => x.duplicate(),
                None => RealizationSnapshot::new(),
            };
            let ghost prev = held@;
            proof {
                let y = synced_steps(m, ks, r0);
                if !touches(ks, r0) {
                    assert(y =~= value_or_blank::<Seq<char>, RealizationSnapshot>(m.realizations, r0).fm_steps);
                }
                assert(prev.fm_steps == y);
            }
            if !held.fm_steps.contains(&key.1) {
                held.fm_steps.insert(key.1.clone(), step.duplicate());
            }
            proof {
                assert(held@.fm_steps =~= synced_steps(m, ks2, r0));
                assert(ks2.contains((r0, s0)));
                assert(touches(ks2, r0));
            }
            out.realizations.insert(key.0.clone(), held);
            proof {
                let want = synced_realizations(m, ks2);
                assert forall|r: Seq<char>| r != r0 implies (touches(ks2, r) == touches(ks, r)) by {
                    if touches(ks2, r) {
                        let w = choose|w: Seq<char>| ks2.contains((r, w));
                        assert(ks.contains((r, w)));
                    }
                    if touches(ks, r) {
                        let w = choose|w: Seq<char>| ks.contains((r, w));
                        assert(ks2.contains((r, w)));
                    }
                }
                assert forall|r: Seq<char>| r != r0 && touches(ks, r) implies synced_steps(m, ks2, r)
                    == synced_steps(m, ks, r) by {
                    assert(synced_steps(m, ks2, r) =~= synced_steps(m, ks, r));
                }
                assert(out.realizations@ =~= want);
            }
            i = i + 1;
        }
        assert(out@ =~= synced(m));
        out
    }

    /// Applies one event to this delta; `source` is the snapshot the delta
    /// is derived against.
    pub fn update_from_event(&mut self, event: &Event, source: &EnsembleSnapshot)
        ensures
            final(self)@ == apply_event(old(self)@, *event, source@),
    {
        match event {
            Event::EnsembleEvent(e) => {
                self.ensemble_state = Some(e.status);
            },
            Event::FMEvent(e) => {
                self.update_fm_from_event(e);
            },
            Event::RealizationEvent(e) => {
                self.update_real_from_event(e, source);
            },
            Event::EESnapshotUpdateEvent(e) => {
                self.update_from(&e.snapshot);
            },
            Event::EEFullSnapshotEvent(e) => {
                self.update_from(&e.snapshot);
            },
        }
    }

    /// The delta that `events` stand for, derived against this snapshot.
    pub fn update_snapshot(&self, events: &Vec<Event>) -> (r: EnsembleSnapshot)
        ensures
            r@ == delta_of(self@, events@),
    {
        let mut delta = EnsembleSnapshot::new();
        let n = events.len();
        let mut i: usize = 0;
        while i < n
            invariant
                n == events@.len(),
                i <= n,
                delta@ == apply_events(blank_ensemble(), events@.subrange(0, i as int), self@),
            decreases n - i,
        {
            delta.update_from_event(&events[i], self);
            proof {
                let es = events@.subrange(0, i + 1);
                assert(es.drop_last() =~= events@.subrange(0, i as int));
                assert(es.last() == events@[i as int]);
            }
            i = i + 1;
        }
        assert(events@.subrange(0, n as int) =~= events@);
        delta
    }
}

} // verus!
