use faster_ee::ensemble_snapshot::{EnsembleSnapshot, MAX_RUNTIME_MESSAGE};
use faster_ee::events::{
    EESnapshotEvent, Status, EnsembleEvent, Event, ForwardModelStepEvent, ForwardModelStepFailure,
    ForwardModelStepRunning, ForwardModelStepStart, ForwardModelStepSuccess, RealizationEvent,
};
use faster_ee::fm_step_snapshot::FMStepSnapshot;
use faster_ee::realization_snapshot::RealizationSnapshot;
use faster_ee::status::{EnsembleState, EnsembleStatus, ForwardModelStepStatus, RealizationState};
use faster_ee::table::Table;
use faster_ee::types::{event_to_json, HeartBeat, Timestamp};
use faster_ee::utils::is_none_or_empty;

fn ts(seconds: i64) -> Timestamp {
    Timestamp { seconds, nanos: 0 }
}

fn start(real: &str, step: &str, t: i64) -> Event {
    Event::FMEvent(ForwardModelStepEvent::Start(ForwardModelStepStart {
        status: ForwardModelStepStatus::get_starting(),
        time: ts(t),
        fm_step: step.to_string(),
        real_id: real.to_string(),
        ensemble: None,
        stdout: Some("out.txt".to_string()),
        stderr: None,
    }))
}

fn success(real: &str, step: &str, t: i64) -> Event {
    Event::FMEvent(ForwardModelStepEvent::Success(ForwardModelStepSuccess {
        status: ForwardModelStepStatus::get_finished(),
        time: ts(t),
        fm_step: step.to_string(),
        real_id: real.to_string(),
        ensemble: None,
        current_memory_usage: None,
    }))
}

fn step(status: ForwardModelStepStatus, index: &str) -> FMStepSnapshot {
    let mut s = FMStepSnapshot::new();
    s.status = Some(status);
    s.index = Some(index.to_string());
    s
}

fn flat_step<'a>(s: &'a EnsembleSnapshot, real: &str, step: &str) -> Option<&'a FMStepSnapshot> {
    s.fm_steps.get(&(real.to_string(), step.to_string()))
}

fn nested_step<'a>(s: &'a EnsembleSnapshot, real: &str, step: &str) -> Option<&'a FMStepSnapshot> {
    s.realizations.get(&real.to_string()).and_then(|r| r.fm_steps.get(&step.to_string()))
}

fn sample_snapshot() -> EnsembleSnapshot {
    let mut real = RealizationSnapshot::new();
    real.status = Some(RealizationState::Running);
    real.exec_hosts = Some("host-a".to_string());
    real.fm_steps.insert("0".to_string(), step(ForwardModelStepStatus::Running, "0"));
    let mut s = EnsembleSnapshot::new();
    s.realizations.insert("1".to_string(), real);
    s.fm_steps.insert(("1".to_string(), "0".to_string()), step(ForwardModelStepStatus::Running, "0"));
    s.ensemble_state = Some(EnsembleStatus::Started);
    s
}

fn same_snapshot(a: &EnsembleSnapshot, b: &EnsembleSnapshot) {
    assert_eq!(a.ensemble_state, b.ensemble_state);
    assert_eq!(a.fm_steps.size(), b.fm_steps.size());
    for i in 0..a.fm_steps.size() {
        let (k, v) = a.fm_steps.at(i);
        assert_eq!(b.fm_steps.get(k), Some(v));
    }
    assert_eq!(a.realizations.size(), b.realizations.size());
    for i in 0..a.realizations.size() {
        let (k, v) = a.realizations.at(i);
        let w = b.realizations.get(k).unwrap();
        assert_eq!(v.status, w.status);
        assert_eq!(v.start_time, w.start_time);
        assert_eq!(v.end_time, w.end_time);
        assert_eq!(v.exec_hosts, w.exec_hosts);
        assert_eq!(v.message, w.message);
        assert_eq!(v.fm_steps.size(), w.fm_steps.size());
        for j in 0..v.fm_steps.size() {
            let (sk, sv) = v.fm_steps.at(j);
            assert_eq!(w.fm_steps.get(sk), Some(sv));
        }
    }
}

#[test]
fn merge_with_empty_snapshot_is_identity() {
    let s = sample_snapshot();
    let mut left = s.duplicate();
    left.update_from(&EnsembleSnapshot::new());
    same_snapshot(&left, &s);
    let mut right = EnsembleSnapshot::new();
    right.update_from(&s);
    same_snapshot(&right, &s);
}

#[test]
fn merge_twice_equals_merge_once() {
    let mut base = EnsembleSnapshot::new();
    base.fm_steps.insert(("1".to_string(), "0".to_string()), step(ForwardModelStepStatus::Pending, "0"));
    base.fm_steps.insert(("2".to_string(), "0".to_string()), step(ForwardModelStepStatus::Failed, "0"));
    let d = sample_snapshot();
    let mut once = base.duplicate();
    once.update_from(&d);
    let mut twice = base.duplicate();
    twice.update_from(&d);
    twice.update_from(&d);
    same_snapshot(&once, &twice);
    assert_eq!(flat_step(&once, "1", "0").unwrap().status, Some(ForwardModelStepStatus::Running));
    assert_eq!(flat_step(&once, "2", "0").unwrap().status, Some(ForwardModelStepStatus::Failed));
}

#[test]
fn step_status_overwrites_even_when_unset() {
    let mut a = step(ForwardModelStepStatus::Running, "3");
    a.max_memory_usage = Some(100);
    let mut b = FMStepSnapshot::new();
    b.max_memory_usage = Some(250);
    a.update_from(&b);
    assert_eq!(a.status, None);
    assert_eq!(a.index, Some("3".to_string()));
    assert_eq!(a.max_memory_usage, Some(250));
}

#[test]
fn realization_status_overwrites_only_when_set() {
    let mut a = RealizationSnapshot::new();
    a.status = Some(RealizationState::Running);
    a.fm_steps.insert("0".to_string(), step(ForwardModelStepStatus::Running, "0"));
    let mut b = RealizationSnapshot::new();
    b.message = Some("boom".to_string());
    let mut s1 = FMStepSnapshot::new();
    s1.status = Some(ForwardModelStepStatus::Finished);
    b.fm_steps.insert("0".to_string(), s1);
    a.update_from(&b);
    assert_eq!(a.status, Some(RealizationState::Running));
    assert_eq!(a.message, Some("boom".to_string()));
    let merged = a.fm_steps.get(&"0".to_string()).unwrap();
    assert_eq!(merged.status, Some(ForwardModelStepStatus::Finished));
    assert_eq!(merged.index, Some("0".to_string()));
}

#[test]
fn start_then_success_builds_one_step() {
    let source = EnsembleSnapshot::new();
    let delta = source.update_snapshot(&vec![start("0", "0", 10), success("0", "0", 20)]);
    let synced = delta.create_new_with_synced_fm_steps_into_realizations();
    let s = nested_step(&synced, "0", "0").unwrap();
    assert_eq!(s.status, Some(ForwardModelStepStatus::Finished));
    assert_eq!(s.start_time, Some(ts(10)));
    assert_eq!(s.end_time, Some(ts(20)));
    assert_eq!(s.index, Some("0".to_string()));
    assert_eq!(s.stdout, Some("out.txt".to_string()));
}

#[test]
fn step_events_for_distinct_steps_commute() {
    let source = EnsembleSnapshot::new();
    let a = source.update_snapshot(&vec![start("0", "0", 1), success("0", "1", 2), start("1", "0", 3)]);
    let b = source.update_snapshot(&vec![start("1", "0", 3), start("0", "0", 1), success("0", "1", 2)]);
    let sa = a.create_new_with_synced_fm_steps_into_realizations();
    let sb = b.create_new_with_synced_fm_steps_into_realizations();
    same_snapshot(&sa, &sb);
    assert_eq!(sa.realizations.size(), 2);
    assert_eq!(nested_step(&sa, "0", "1").unwrap().status, Some(ForwardModelStepStatus::Finished));
}

#[test]
fn running_and_failure_fill_their_fields() {
    let source = EnsembleSnapshot::new();
    let running = Event::FMEvent(ForwardModelStepEvent::Running(ForwardModelStepRunning {
        status: ForwardModelStepStatus::get_running(),
        time: ts(5),
        fm_step: "2".to_string(),
        real_id: "4".to_string(),
        ensemble: None,
        max_memory_usage: Some(2048),
        current_memory_usage: Some(1024),
        cpu_seconds: Some(1.5f64.to_bits()),
    }));
    let failure = Event::FMEvent(ForwardModelStepEvent::Failure(ForwardModelStepFailure {
        status: ForwardModelStepStatus::get_failed(),
        time: ts(9),
        fm_step: "2".to_string(),
        real_id: "4".to_string(),
        ensemble: None,
        error_msg: "exit 1".to_string(),
        exit_code: Some(1),
    }));
    let delta = source.update_snapshot(&vec![running, failure]);
    let s = flat_step(&delta, "4", "2").unwrap();
    assert_eq!(s.status, Some(ForwardModelStepStatus::Failed));
    assert_eq!(s.max_memory_usage, Some(2048));
    assert_eq!(s.current_memory_usage, Some(1024));
    assert_eq!(s.cpu_seconds.map(f64::from_bits), Some(1.5));
    assert_eq!(s.end_time, Some(ts(9)));
    assert_eq!(s.error, Some("exit 1".to_string()));
}

fn realization_event(real: &str, status: RealizationState, t: i64) -> Event {
    Event::RealizationEvent(RealizationEvent {
        real: real.to_string(),
        time: ts(t),
        ensemble: None,
        queue_event_type: None,
        exec_hosts: Some("node-7".to_string()),
        message: Some("lost".to_string()),
        status,
    })
}

#[test]
fn realization_events_fill_their_fields() {
    let source = EnsembleSnapshot::new();
    let delta = source.update_snapshot(&vec![
        realization_event("3", RealizationState::Running, 4),
        realization_event("3", RealizationState::Failed, 8),
    ]);
    let r = delta.realizations.get(&"3".to_string()).unwrap();
    assert_eq!(r.status, Some(RealizationState::Failed));
    assert_eq!(r.start_time, Some(ts(4)));
    assert_eq!(r.end_time, Some(ts(8)));
    assert_eq!(r.message, Some("lost".to_string()));
    assert_eq!(r.exec_hosts, Some("node-7".to_string()));
}

#[test]
fn timeout_fails_every_unfailed_step_of_the_source() {
    let mut real = RealizationSnapshot::new();
    real.fm_steps.insert("0".to_string(), step(ForwardModelStepStatus::Running, "0"));
    real.fm_steps.insert("1".to_string(), step(ForwardModelStepStatus::Finished, "1"));
    real.fm_steps.insert("2".to_string(), step(ForwardModelStepStatus::Failed, "2"));
    let mut source = EnsembleSnapshot::new();
    source.realizations.insert("1".to_string(), real);
    let delta = source.update_snapshot(&vec![realization_event("1", RealizationState::Timeout, 77)]);
    let s0 = flat_step(&delta, "1", "0").unwrap();
    assert_eq!(s0.status, Some(ForwardModelStepStatus::Failed));
    assert_eq!(s0.error, Some(MAX_RUNTIME_MESSAGE.to_string()));
    assert_eq!(s0.end_time, Some(ts(77)));
    assert_eq!(flat_step(&delta, "1", "1").unwrap().status, Some(ForwardModelStepStatus::Failed));
    assert!(flat_step(&delta, "1", "2").is_none());
    assert_eq!(
        delta.realizations.get(&"1".to_string()).unwrap().status,
        Some(RealizationState::Timeout)
    );
}

#[test]
fn ensemble_and_snapshot_events_update_the_delta() {
    let source = EnsembleSnapshot::new();
    let carried = sample_snapshot();
    let delta = source.update_snapshot(&vec![
        Event::EnsembleEvent(EnsembleEvent {
            time: ts(1),
            ensemble: "ens".to_string(),
            status: EnsembleStatus::get_failed(),
        }),
        Event::EESnapshotUpdateEvent(EESnapshotEvent::new(carried, "ens".to_string())),
    ]);
    assert_eq!(delta.ensemble_state, Some(EnsembleStatus::Started));
    assert_eq!(flat_step(&delta, "1", "0").unwrap().status, Some(ForwardModelStepStatus::Running));
}

#[test]
fn sync_keeps_steps_a_realization_already_holds() {
    let mut s = sample_snapshot();
    s.fm_steps.insert(("1".to_string(), "0".to_string()), step(ForwardModelStepStatus::Finished, "0"));
    s.fm_steps.insert(("9".to_string(), "4".to_string()), step(ForwardModelStepStatus::Pending, "4"));
    let synced = s.create_new_with_synced_fm_steps_into_realizations();
    assert_eq!(nested_step(&synced, "1", "0").unwrap().status, Some(ForwardModelStepStatus::Running));
    assert_eq!(nested_step(&synced, "9", "4").unwrap().status, Some(ForwardModelStepStatus::Pending));
    assert_eq!(synced.realizations.get(&"9".to_string()).unwrap().status, None);
}

#[test]
fn table_insert_get_remove() {
    let mut t: Table<String, i64> = Table::new();
    t.insert("a".to_string(), 1);
    t.insert("b".to_string(), 2);
    t.insert("a".to_string(), 3);
    assert_eq!(t.size(), 2);
    assert_eq!(t.get(&"a".to_string()), Some(&3));
    t.remove(&"a".to_string());
    assert!(!t.contains(&"a".to_string()));
    assert_eq!(t.size(), 1);
}

#[test]
fn status_names_and_getters() {
    assert_eq!(RealizationState::get_waiting().to_str(), "Waiting");
    assert_eq!(RealizationState::get_pending().to_str(), "Pending");
    assert_eq!(RealizationState::get_running().to_str(), "Running");
    assert_eq!(RealizationState::get_failed().to_str(), "Failed");
    assert_eq!(RealizationState::get_finished().to_str(), "Finished");
    assert_eq!(RealizationState::get_unknown().to_str(), "Unknown");
    assert_eq!(RealizationState::get_timeout().to_str(), "Timeout");
    assert_eq!(EnsembleState::Started.as_str(), "Starting");
    assert_eq!(EnsembleState::Stopped.as_str(), "Stopped");
    assert_eq!(EnsembleStatus::get_started(), EnsembleStatus::Started);
    assert_eq!(EnsembleStatus::get_succeeded(), EnsembleStatus::Succeeded);
    assert_eq!(EnsembleStatus::get_cancelled(), EnsembleStatus::Cancelled);
    assert_eq!(ForwardModelStepStatus::get_starting(), ForwardModelStepStatus::Pending);
}

#[test]
fn small_helpers() {
    assert!(is_none_or_empty(&None));
    assert!(is_none_or_empty(&Some(String::new())));
    assert!(!is_none_or_empty(&Some("x".to_string())));
    assert_eq!(event_to_json("{\"a\":1}"), b"{\"a\":1}".to_vec());
    assert_eq!(HeartBeat::new().msg, "BEAT");
}

#[test]
fn step_event_kinds_name_their_status() {
    assert_eq!(<ForwardModelStepStart as Status>::STATUS, "Pending");
    assert_eq!(<ForwardModelStepRunning as Status>::STATUS, "Running");
    assert_eq!(<ForwardModelStepSuccess as Status>::STATUS, "Finished");
    assert_eq!(<ForwardModelStepFailure as Status>::STATUS, "Failed");
}

#[test]
fn max_memory_over_all_steps() {
    let mut s = EnsembleSnapshot::new();
    assert_eq!(s.max_memory_usage(), -1);
    let mut a = step(ForwardModelStepStatus::Running, "0");
    a.max_memory_usage = Some(300);
    let mut b = step(ForwardModelStepStatus::Running, "1");
    b.max_memory_usage = Some(1200);
    s.fm_steps.insert(("0".to_string(), "0".to_string()), a);
    s.fm_steps.insert(("0".to_string(), "1".to_string()), b);
    s.fm_steps.insert(("1".to_string(), "0".to_string()), step(ForwardModelStepStatus::Pending, "0"));
    assert_eq!(s.max_memory_usage(), 1200);
}

#[test]
fn successful_realizations_are_the_finished_ones() {
    let mut s = EnsembleSnapshot::new();
    for (id, state) in [
        ("0", RealizationState::Finished),
        ("1", RealizationState::Failed),
        ("2", RealizationState::Finished),
        ("3", RealizationState::Running),
    ] {
        let mut r = RealizationSnapshot::new();
        r.status = Some(state);
        s.realizations.insert(id.to_string(), r);
    }
    let mut done = s.get_successful_realizations();
    done.sort();
    assert_eq!(done, vec!["0".to_string(), "2".to_string()]);
}
