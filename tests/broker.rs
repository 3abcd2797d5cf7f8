use faster_ee::batch::{get_destination, BatchWindow, DestinationHandler};
use faster_ee::ensemble_snapshot::{EnsembleSnapshot, MAX_RUNTIME_MESSAGE};
use faster_ee::evaluator::{QueueEvents, EE};
use faster_ee::events::{
    ClientEvent, DispatcherEvent, EECancelled, EESnapshotEvent, EEUserEvent, EnsembleEvent, ErtEvent,
    ForwardModelStepChecksum, ForwardModelStepEvent, ForwardModelStepStart, ForwardModelStepSuccess,
    RealizationEvent,
};
use faster_ee::fm_step_snapshot::FMStepSnapshot;
use faster_ee::publisher::{ack_payload, heartbeat_payload, Envelope};
use faster_ee::realization_snapshot::RealizationSnapshot;
use faster_ee::router::{classify_payload, classify_sender, Inbound, PayloadKind, PeerRole};
use faster_ee::status::{EnsembleState, EnsembleStatus, ForwardModelStepStatus, RealizationState};
use faster_ee::types::Timestamp;

fn ts(seconds: i64) -> Timestamp {
    Timestamp { seconds, nanos: 0 }
}

fn new_ee() -> EE {
    EE::new("tcp://*:8888".to_string(), None)
}

fn fm_start(real: &str, step: &str, t: i64) -> DispatcherEvent {
    DispatcherEvent::ForwardModelStep(ForwardModelStepEvent::Start(ForwardModelStepStart {
        status: ForwardModelStepStatus::get_starting(),
        time: ts(t),
        fm_step: step.to_string(),
        real_id: real.to_string(),
        ensemble: None,
        stdout: None,
        stderr: None,
    }))
}

fn fm_success(real: &str, step: &str, t: i64) -> DispatcherEvent {
    DispatcherEvent::ForwardModelStep(ForwardModelStepEvent::Success(ForwardModelStepSuccess {
        status: ForwardModelStepStatus::get_finished(),
        time: ts(t),
        fm_step: step.to_string(),
        real_id: real.to_string(),
        ensemble: None,
        current_memory_usage: None,
    }))
}

fn ensemble(status: EnsembleStatus, id: &str) -> DispatcherEvent {
    DispatcherEvent::Ensemble(EnsembleEvent { time: ts(0), ensemble: id.to_string(), status })
}

/// One batch window that takes everything queued, then one reducer pass.
fn batch_and_reduce(ee: &mut EE) {
    let mut window = BatchWindow::new(ee.max_batch_size(), ee.batching_interval_ms());
    while window.is_open(0) {
        match ee.pop_event() {
            Some(e) => window.accept(e),
            None => break,
        }
    }
    ee.push_batch(window.batch);
    while ee.process_event_buffer() {}
}

/// Takes every outbound event, oldest first.
fn drain(ee: &mut EE) -> Vec<QueueEvents> {
    let mut out = Vec::new();
    while let Some(e) = ee.pop_outbound() {
        out.push(e);
    }
    out
}

fn frames(identity: &[u8], name: &str, payload: &str) -> Vec<Vec<u8>> {
    vec![identity.to_vec(), name.as_bytes().to_vec(), Vec::new(), payload.as_bytes().to_vec()]
}

fn step(status: ForwardModelStepStatus, index: &str) -> FMStepSnapshot {
    let mut s = FMStepSnapshot::new();
    s.status = Some(status);
    s.index = Some(index.to_string());
    s
}

#[test]
fn single_fm_start_then_success() {
    let mut ee = new_ee();
    ee.handle_event_from_dispatcher(fm_start("0", "0", 100));
    ee.handle_event_from_dispatcher(fm_success("0", "0", 200));
    batch_and_reduce(&mut ee);
    assert_eq!(ee.outbound_len(), 1);
    let out = drain(&mut ee);
    match &out[0] {
        QueueEvents::EnsembleSnapshot(ev) => {
            let real = ev.snapshot.realizations.get(&"0".to_string()).unwrap();
            let s = real.fm_steps.get(&"0".to_string()).unwrap();
            assert_eq!(s.status, Some(ForwardModelStepStatus::Finished));
            assert_eq!(s.start_time, Some(ts(100)));
            assert_eq!(s.end_time, Some(ts(200)));
            assert_eq!(s.index, Some("0".to_string()));
        },
        other => panic!("unexpected outbound event {:?}", other),
    }
    let main = ee.main_snapshot();
    let s = main.fm_steps.get(&("0".to_string(), "0".to_string())).unwrap();
    assert_eq!(s.status, Some(ForwardModelStepStatus::Finished));
}

#[test]
fn ensemble_failed_cascade() {
    let mut ee = new_ee();
    ee.handle_event_from_dispatcher(ensemble(EnsembleStatus::Started, "ens-42"));
    batch_and_reduce(&mut ee);
    assert_eq!(ee.ensemble_state(), EnsembleState::Started);
    assert_eq!(ee.ensemble_id(), Some("ens-42".to_string()));
    ee.handle_event_from_dispatcher(ensemble(EnsembleStatus::Failed, "ens-42"));
    batch_and_reduce(&mut ee);
    assert_eq!(ee.ensemble_state(), EnsembleState::Failed);
    assert!(!ee.is_running());
    let out = drain(&mut ee);
    let cancels: Vec<&EECancelled> = out
        .iter()
        .filter_map(|e| match e {
            QueueEvents::UserCancelledEE(c) => Some(c),
            _ => None,
        })
        .collect();
    assert_eq!(cancels.len(), 1);
    assert_eq!(cancels[0].ensemble_id, "ens-42");
    assert_eq!(cancels[0].monitor, None);
}

#[test]
fn failed_ensemble_ignores_later_start_and_cancel() {
    let mut ee = new_ee();
    ee.handle_event_from_dispatcher(ensemble(EnsembleStatus::Failed, "e"));
    batch_and_reduce(&mut ee);
    let before = ee.outbound_len();
    ee.handle_event_from_dispatcher(ensemble(EnsembleStatus::Started, "e2"));
    batch_and_reduce(&mut ee);
    assert_eq!(ee.ensemble_state(), EnsembleState::Failed);
    assert_eq!(ee.outbound_len(), before);
    assert_eq!(ee.ensemble_id(), Some("e2".to_string()));
}

#[test]
fn ensemble_succeeded_and_cancelled() {
    let mut ee = new_ee();
    ee.handle_event_from_dispatcher(ensemble(EnsembleStatus::Succeeded, "e"));
    batch_and_reduce(&mut ee);
    assert_eq!(ee.ensemble_state(), EnsembleState::Stopped);
    assert!(ee.is_running());
    assert_eq!(ee.main_snapshot().ensemble_state, Some(EnsembleStatus::Succeeded));
    ee.handle_event_from_dispatcher(ensemble(EnsembleStatus::Cancelled, "e"));
    batch_and_reduce(&mut ee);
    assert_eq!(ee.ensemble_state(), EnsembleState::Cancelled);
    assert!(!ee.is_running());
    assert_eq!(ee.outbound_len(), 2);
}

fn snapshot_with_real_1() -> EnsembleSnapshot {
    let mut real = RealizationSnapshot::new();
    real.status = Some(RealizationState::Running);
    real.fm_steps.insert("0".to_string(), step(ForwardModelStepStatus::Running, "0"));
    real.fm_steps.insert("1".to_string(), step(ForwardModelStepStatus::Finished, "1"));
    let mut s = EnsembleSnapshot::new();
    s.realizations.insert("1".to_string(), real);
    s
}

#[test]
fn timeout_cascade() {
    let mut ee = new_ee();
    ee.handle_event_from_ert(ErtEvent::EESnapshotUpdate(EESnapshotEvent::new(
        snapshot_with_real_1(),
        "ens".to_string(),
    )));
    batch_and_reduce(&mut ee);
    assert_eq!(ee.ensemble_id(), Some("ens".to_string()));
    ee.handle_event_from_ert(ErtEvent::Realization(RealizationEvent {
        real: "1".to_string(),
        time: ts(500),
        ensemble: None,
        queue_event_type: None,
        exec_hosts: None,
        message: None,
        status: RealizationState::get_timeout(),
    }));
    batch_and_reduce(&mut ee);
    let out = drain(&mut ee);
    match out.last().unwrap() {
        QueueEvents::EnsembleSnapshot(ev) => {
            let s0 = ev.snapshot.fm_steps.get(&("1".to_string(), "0".to_string())).unwrap();
            assert_eq!(s0.status, Some(ForwardModelStepStatus::Failed));
            assert_eq!(s0.error, Some(MAX_RUNTIME_MESSAGE.to_string()));
            assert_eq!(s0.end_time, Some(ts(500)));
            let s1 = ev.snapshot.fm_steps.get(&("1".to_string(), "1".to_string())).unwrap();
            assert_eq!(s1.status, Some(ForwardModelStepStatus::Failed));
        },
        other => panic!("unexpected outbound event {:?}", other),
    }
}

#[test]
fn snapshot_update_emits_full_main() {
    let mut ee = new_ee();
    ee.handle_event_from_dispatcher(fm_start("7", "0", 1));
    batch_and_reduce(&mut ee);
    ee.handle_event_from_ert(ErtEvent::EEFullSnapshot(EESnapshotEvent::new(
        snapshot_with_real_1(),
        "ens-full".to_string(),
    )));
    batch_and_reduce(&mut ee);
    let out = drain(&mut ee);
    match out.last().unwrap() {
        QueueEvents::EnsembleSnapshot(ev) => {
            assert_eq!(ev.ensemble, "ens-full");
            assert!(ev.snapshot.fm_steps.contains(&("7".to_string(), "0".to_string())));
            assert!(ev.snapshot.realizations.contains(&"1".to_string()));
        },
        other => panic!("unexpected outbound event {:?}", other),
    }
}

#[test]
fn client_reconnect() {
    let mut ee = new_ee();
    let first = ee.handle_message(&frames(b"id-a", "client-a", "CONNECT"));
    match first {
        Inbound::Connected { role, reconnect, full_snapshot, .. } => {
            assert_eq!(role, PeerRole::Client);
            assert!(!reconnect);
            assert!(full_snapshot.is_some());
        },
        other => panic!("unexpected {:?}", other),
    }
    let second = ee.handle_message(&frames(b"id-a", "client-a", "CONNECT"));
    match second {
        Inbound::Connected { reconnect, full_snapshot, .. } => {
            assert!(reconnect);
            assert!(full_snapshot.is_some());
        },
        other => panic!("unexpected {:?}", other),
    }
    let plan = ee.plan_delivery(&QueueEvents::HeartBeat);
    assert_eq!(plan.len(), 1);
    assert_eq!(plan[0].identity, b"id-a".to_vec());
}

#[test]
fn heartbeat_with_no_clients() {
    let mut ee = new_ee();
    for _ in 0..100 {
        assert!(!ee.do_heartbeat_clients());
    }
    assert_eq!(ee.outbound_len(), 0);
    ee.handle_message(&frames(b"c1", "client-1", "CONNECT"));
    assert!(ee.do_heartbeat_clients());
    assert!(matches!(drain(&mut ee)[0], QueueEvents::HeartBeat));
}

#[test]
fn unknown_sender_is_dropped() {
    let mut ee = new_ee();
    let r = ee.handle_message(&frames(b"x", "dashboard-xyz", "CONNECT"));
    assert!(matches!(r, Inbound::Dropped));
    assert!(r.ack_target().is_none());
    assert_eq!(ee.outbound_len(), 0);
    assert!(ee.plan_delivery(&QueueEvents::HeartBeat).is_empty());
}

#[test]
fn short_frame_is_dropped() {
    let mut ee = new_ee();
    let r = ee.handle_message(&vec![b"x".to_vec(), b"client-1".to_vec()]);
    assert!(matches!(r, Inbound::Dropped));
}

#[test]
fn accepted_frames_are_acknowledged_to_their_sender() {
    let mut ee = new_ee();
    let r = ee.handle_message(&frames(b"disp-7", "dispatch-7", "{\"event_type\":\"x\"}"));
    assert_eq!(r.ack_target(), Some(&b"disp-7".to_vec()));
    match r {
        Inbound::Payload { role, payload, .. } => {
            assert_eq!(role, PeerRole::Dispatcher);
            assert_eq!(payload, b"{\"event_type\":\"x\"}".to_vec());
        },
        other => panic!("unexpected {:?}", other),
    }
    assert!(ee.ert_identity().is_none());
    let r = ee.handle_message(&frames(b"ert-id", "ert", "CONNECT"));
    assert_eq!(r.ack_target(), Some(&b"ert-id".to_vec()));
    assert_eq!(ee.ert_identity(), Some(&b"ert-id".to_vec()));
    assert_eq!(ack_payload(), b"ACK".to_vec());
}

#[test]
fn full_snapshot_on_connect_equals_main() {
    let mut ee = new_ee();
    ee.handle_event_from_dispatcher(fm_start("2", "5", 1));
    batch_and_reduce(&mut ee);
    match ee.handle_message(&frames(b"c", "client-x", "CONNECT")) {
        Inbound::Connected { full_snapshot: Some(full), .. } => {
            let main = ee.main_snapshot();
            assert_eq!(full.snapshot.fm_steps.size(), main.fm_steps.size());
            assert_eq!(
                full.snapshot.fm_steps.get(&("2".to_string(), "5".to_string())),
                main.fm_steps.get(&("2".to_string(), "5".to_string()))
            );
        },
        other => panic!("unexpected {:?}", other),
    }
}

#[test]
fn checksum_goes_straight_out() {
    let mut ee = new_ee();
    ee.handle_event_from_dispatcher(DispatcherEvent::ForwardModelStepChecksum(ForwardModelStepChecksum {
        time: ts(3),
        ensemble: None,
        real: "0".to_string(),
        checksums: "{}".to_string(),
    }));
    assert_eq!(ee.events_len(), 0);
    assert_eq!(ee.outbound_len(), 1);
    assert!(matches!(drain(&mut ee)[0], QueueEvents::Checksum(_)));
    assert_eq!(ee.main_snapshot().fm_steps.size(), 0);
}

#[test]
fn user_done_stops_and_goes_to_ert_only() {
    let mut ee = new_ee();
    ee.handle_message(&frames(b"c", "client-x", "CONNECT"));
    ee.handle_message(&frames(b"e", "ert-main", "CONNECT"));
    ee.handle_event_from_client(ClientEvent::EEUserDone(EEUserEvent { monitor: "m".to_string(), time: ts(1) }));
    assert!(!ee.is_running());
    let out = drain(&mut ee);
    let done = out.iter().filter(|e| matches!(e, QueueEvents::UserDone(_))).count();
    assert_eq!(done, 1);
    let plan = ee.plan_delivery(&out[0]);
    assert_eq!(plan.len(), 1);
    assert_eq!(plan[0].identity, b"e".to_vec());
    assert_eq!(plan[0].envelope, Envelope::UserDone);
}

#[test]
fn user_cancel_takes_cancel_path() {
    let mut ee = new_ee();
    ee.handle_event_from_client(ClientEvent::EEUserCancel(EECancelled {
        ensemble_id: "ignored".to_string(),
        monitor: Some("mon".to_string()),
    }));
    assert!(!ee.is_running());
    match &drain(&mut ee)[0] {
        QueueEvents::UserCancelledEE(c) => {
            assert_eq!(c.ensemble_id, "");
            assert_eq!(c.monitor, Some("mon".to_string()));
        },
        other => panic!("unexpected {:?}", other),
    }
}

#[test]
fn delivery_plan_puts_ert_first_then_clients() {
    let mut ee = new_ee();
    ee.handle_message(&frames(b"c1", "client-1", "CONNECT"));
    ee.handle_message(&frames(b"c2", "client-2", "CONNECT"));
    ee.handle_message(&frames(b"e", "ert", "CONNECT"));
    let plan = ee.plan_delivery(&QueueEvents::HeartBeat);
    assert_eq!(plan.len(), 3);
    assert_eq!(plan[0].identity, b"e".to_vec());
    assert!(plan.iter().all(|d| d.envelope == Envelope::Beat));
    ee.handle_message(&frames(b"c1", "client-1", "DISCONNECT"));
    ee.handle_message(&frames(b"e", "ert", "DISCONNECT"));
    let plan = ee.plan_delivery(&QueueEvents::HeartBeat);
    assert_eq!(plan.len(), 1);
    assert_eq!(plan[0].identity, b"c2".to_vec());
    assert_eq!(heartbeat_payload(), b"BEAT".to_vec());
}

#[test]
fn sender_and_payload_classification() {
    assert_eq!(classify_sender(&b"client-a".to_vec()), Some(PeerRole::Client));
    assert_eq!(classify_sender(&b"dispatch-3".to_vec()), Some(PeerRole::Dispatcher));
    assert_eq!(classify_sender(&b"ert".to_vec()), Some(PeerRole::Ert));
    assert_eq!(classify_sender(&b"cli".to_vec()), None);
    assert_eq!(classify_payload(&b"CONNECT".to_vec()), PayloadKind::Connect);
    assert_eq!(classify_payload(&b"DISCONNECT".to_vec()), PayloadKind::Disconnect);
    assert_eq!(classify_payload(&b"CONNECTED".to_vec()), PayloadKind::Message);
}

#[test]
fn batch_window_closes_at_size_or_time() {
    let mut w = BatchWindow::new(2, 1000);
    assert!(w.is_open(0));
    assert!(!w.is_open(1000));
    let e = faster_ee::events::Event::EnsembleEvent(EnsembleEvent {
        time: ts(0),
        ensemble: "e".to_string(),
        status: EnsembleStatus::Unknown,
    });
    assert_eq!(get_destination(&e), DestinationHandler::EnsembleStarted);
    w.accept(e);
    assert!(w.is_open(10));
    w.accept(faster_ee::events::Event::EnsembleEvent(EnsembleEvent {
        time: ts(0),
        ensemble: "e".to_string(),
        status: EnsembleStatus::Failed,
    }));
    assert!(!w.is_open(10));
    assert_eq!(w.batch.started.len(), 1);
    assert_eq!(w.batch.failed.len(), 1);
    assert!(!w.batch.is_empty());
}

#[test]
fn pop_event_is_fifo() {
    let mut ee = new_ee();
    ee.handle_event_from_dispatcher(fm_start("0", "0", 1));
    ee.handle_event_from_dispatcher(ensemble(EnsembleStatus::Started, "e"));
    assert_eq!(ee.events_len(), 2);
    assert!(matches!(ee.pop_event(), Some(faster_ee::events::Event::FMEvent(_))));
    assert!(matches!(ee.pop_event(), Some(faster_ee::events::Event::EnsembleEvent(_))));
    assert!(ee.pop_event().is_none());
    assert!(!ee.process_event_buffer());
}

#[test]
fn new_evaluator_defaults() {
    let mut ee = EE::new("tcp://*:9000".to_string(), Some((b"pub".to_vec(), b"sec".to_vec())));
    assert_eq!(ee.address(), "tcp://*:9000");
    assert_eq!(ee.server_curve().as_ref().map(|k| k.0.clone()), Some(b"pub".to_vec()));
    assert_eq!(ee.max_batch_size(), 500);
    assert_eq!(ee.batching_interval_ms(), 1000);
    assert!(ee.is_running());
    assert_eq!(ee.ensemble_state(), EnsembleState::Unknown);
    assert_eq!(ee.ensemble_state().as_str(), "Unknown");
    assert_eq!(ee.ensemble_id(), None);
    ee.stop();
    assert!(!ee.is_running());
}

#[test]
fn batches_queue_in_order_and_empty_windows_are_dropped() {
    let mut ee = new_ee();
    ee.push_batch(BatchWindow::new(10, 1000).batch);
    assert_eq!(ee.batches_len(), 0);
    ee.handle_event_from_dispatcher(ensemble(EnsembleStatus::Started, "first"));
    let mut w = BatchWindow::new(10, 1000);
    w.accept(ee.pop_event().unwrap());
    ee.push_batch(w.batch);
    ee.handle_event_from_dispatcher(ensemble(EnsembleStatus::Started, "second"));
    let mut w = BatchWindow::new(10, 1000);
    w.accept(ee.pop_event().unwrap());
    ee.push_batch(w.batch);
    assert_eq!(ee.batches_len(), 2);
    assert!(ee.process_event_buffer());
    assert_eq!(ee.batches_len(), 1);
    assert_eq!(ee.ensemble_id(), Some("first".to_string()));
    assert!(ee.process_event_buffer());
    assert_eq!(ee.ensemble_id(), Some("second".to_string()));
    assert_eq!(ee.batches_len(), 0);
    assert!(!ee.process_event_buffer());
}
