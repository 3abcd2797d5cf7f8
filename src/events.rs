//! The event taxonomy: what dispatchers, the orchestrator and clients send.

use vstd::prelude::*;
use crate::ensemble_snapshot::EnsembleSnapshot;
use crate::status::{EnsembleStatus, ForwardModelStepStatus, RealizationState};
use crate::types::Timestamp;

verus! {

#[derive(Clone, Debug)]
pub struct ForwardModelStepStart {
    pub status: ForwardModelStepStatus,
    pub time: Timestamp,
    pub fm_step: String,
    pub real_id: String,
    pub ensemble: Option<String>,
    pub stdout: Option<String>,
    pub stderr: Option<String>,
}

#[derive(Clone, Debug)]
pub struct ForwardModelStepRunning {
    pub status: ForwardModelStepStatus,
    pub time: Timestamp,
    pub fm_step: String,
    pub real_id: String,
    pub ensemble: Option<String>,
    pub max_memory_usage: Option<i64>,
    pub current_memory_usage: Option<i64>,
    /// CPU time, as the bit pattern of an IEEE-754 double.
    pub cpu_seconds: Option<u64>,
}

#[derive(Clone, Debug)]
pub struct ForwardModelStepSuccess {
    pub status: ForwardModelStepStatus,
    pub time: Timestamp,
    pub fm_step: String,
    pub real_id: String,
    pub ensemble: Option<String>,
    pub current_memory_usage: Option<i64>,
}

#[derive(Clone, Debug)]
pub struct ForwardModelStepFailure {
    pub status: ForwardModelStepStatus,
    pub time: Timestamp,
    pub fm_step: String,
    pub real_id: String,
    pub ensemble: Option<String>,
    pub error_msg: String,
    pub exit_code: Option<i32>,
}

/// The status name that a kind of step event carries.
pub trait Status {
    const STATUS: &'static str;
}

impl Status for ForwardModelStepStart {
    const STATUS: &'static str = "Pending";
}

impl Status for ForwardModelStepRunning {
    const STATUS: &'static str = "Running";
}

impl Status for ForwardModelStepSuccess {
    const STATUS: &'static str = "Finished";
}

impl Status for ForwardModelStepFailure {
    const STATUS: &'static str = "Failed";
}

/// A lifecycle event of one forward-model step.
#[derive(Clone, Debug)]
pub enum ForwardModelStepEvent {
    Start(ForwardModelStepStart),
    Running(ForwardModelStepRunning),
    Success(ForwardModelStepSuccess),
    Failure(ForwardModelStepFailure),
}

impl ForwardModelStepEvent {
    pub open spec fn real_key(&self) -> String {
        match self {
            ForwardModelStepEvent::Start(e) => e.real_id,
            ForwardModelStepEvent::Running(e) => e.real_id,
            ForwardModelStepEvent::Success(e) => e.real_id,
            ForwardModelStepEvent::Failure(e) => e.real_id,
        }
    }

    pub open spec fn step(&self) -> String {
        match self {
            ForwardModelStepEvent::Start(e) => e.fm_step,
            ForwardModelStepEvent::Running(e) => e.fm_step,
            ForwardModelStepEvent::Success(e) => e.fm_step,
            ForwardModelStepEvent::Failure(e) => e.fm_step,
        }
    }

    pub open spec fn step_status(&self) -> ForwardModelStepStatus {
        match self {
            ForwardModelStepEvent::Start(e) => e.status,
            ForwardModelStepEvent::Running(e) => e.status,
            ForwardModelStepEvent::Success(e) => e.status,
            ForwardModelStepEvent::Failure(e) => e.status,
        }
    }

    pub fn get_real_id(&self) -> (r: String)
        ensures
            r == self.real_key(),
    {
        match self {
            ForwardModelStepEvent::Start(e) => e.real_id.clone(),
            ForwardModelStepEvent::Running(e) => e.real_id.clone(),
            ForwardModelStepEvent::Success(e) => e.real_id.clone(),
            ForwardModelStepEvent::Failure(e) => e.real_id.clone(),
        }
    }

    pub fn get_status(&self) -> (r: ForwardModelStepStatus)
        ensures
            r == self.step_status(),
    {
        match self {
            ForwardModelStepEvent::Start(e) => e.status,
            ForwardModelStepEvent::Running(e) => e.status,
            ForwardModelStepEvent::Success(e) => e.status,
            ForwardModelStepEvent::Failure(e) => e.status,
        }
    }

    pub fn get_fm_step_id(&self) -> (r: String)
        ensures
            r == self.step(),
    {
        match self {
            ForwardModelStepEvent::Start(e) => e.fm_step.clone(),
            ForwardModelStepEvent::Running(e) => e.fm_step.clone(),
            ForwardModelStepEvent::Success(e) => e.fm_step.clone(),
            ForwardModelStepEvent::Failure(e) => e.fm_step.clone(),
        }
    }
}

/// A lifecycle event of one realization; which one is told by `status`.
#[derive(Clone, Debug)]
pub struct RealizationEvent {
    pub real: String,
    pub time: Timestamp,
    pub ensemble: Option<String>,
    pub queue_event_type: Option<String>,
    pub exec_hosts: Option<String>,
    pub message: Option<String>,
    pub status: RealizationState,
}

impl RealizationEvent {
    pub fn get_real_id(&self) -> (r: String)
        ensures
            r == self.real,
    {
        self.real.clone()
    }
}

/// A change of the ensemble's state.
#[derive(Clone, Debug)]
pub struct EnsembleEvent {
    pub time: Timestamp,
    pub ensemble: String,
    pub status: EnsembleStatus,
}

impl EnsembleEvent {
    pub fn get_ensemble_id(&self) -> (r: String)
        ensures
            r == self.ensemble,
    {
        self.ensemble.clone()
    }

    pub fn get_status(&self) -> (r: EnsembleStatus)
        ensures
            r == self.status,
    {
        self.status
    }
}

/// Checksums reported by a dispatcher; forwarded, never applied.
#[derive(Clone, Debug)]
pub struct ForwardModelStepChecksum {
    pub time: Timestamp,
    pub ensemble: Option<String>,
    pub real: String,
    /// The checksum records, as the JSON text of the object they came in.
    pub checksums: String,
}

/// A snapshot carried by an event, with the ensemble it belongs to.
#[derive(Debug)]
pub struct EESnapshotEvent {
    pub snapshot: EnsembleSnapshot,
    pub ensemble: String,
}

impl EESnapshotEvent {
    pub fn new(snapshot: EnsembleSnapshot, ensemble: String) -> (r: Self)
        ensures
            r.snapshot@ == snapshot@,
            r.ensemble == ensemble,
    {
        EESnapshotEvent { snapshot, ensemble }
    }
}

/// A request to cancel the ensemble.
#[derive(Clone, Debug)]
pub struct EECancelled {
    pub ensemble_id: String,
    pub monitor: Option<String>,
}

/// A client's notice that it is done.
#[derive(Clone, Debug)]
pub struct EEUserEvent {
    pub monitor: String,
    pub time: Timestamp,
}

#[derive(Clone, Debug)]
pub enum ClientEvent {
    EEUserCancel(EECancelled),
    EEUserDone(EEUserEvent),
}

#[derive(Clone, Debug)]
pub enum DispatcherEvent {
    ForwardModelStep(ForwardModelStepEvent),
    ForwardModelStepChecksum(ForwardModelStepChecksum),
    Ensemble(EnsembleEvent),
}

#[derive(Debug)]
pub enum ErtEvent {
    Realization(RealizationEvent),
    EESnapshotUpdate(EESnapshotEvent),
    EEFullSnapshot(EESnapshotEvent),
}

/// An event on its way to the reducer.
#[derive(Debug)]
pub enum Event {
    EnsembleEvent(EnsembleEvent),
    FMEvent(ForwardModelStepEvent),
    RealizationEvent(RealizationEvent),
    EESnapshotUpdateEvent(EESnapshotEvent),
    EEFullSnapshotEvent(EESnapshotEvent),
}

} // verus!
