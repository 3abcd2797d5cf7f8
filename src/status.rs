//! Status values of forward-model steps, realizations and ensembles.

use vstd::prelude::*;

verus! {

/// Status of one forward-model step.
#[derive(Clone, Copy, Debug, PartialEq, Eq, Structural)]
pub enum ForwardModelStepStatus {
    Pending,
    Finished,
    Failed,
    Running,
}

impl ForwardModelStepStatus {
    /// The status a start event carries when it names none.
    pub fn get_starting() -> (r: ForwardModelStepStatus)
        ensures
            r == ForwardModelStepStatus::Pending,
    {
        ForwardModelStepStatus::Pending
    }

    pub fn get_finished() -> (r: ForwardModelStepStatus)
        ensures
            r == ForwardModelStepStatus::Finished,
    {
        ForwardModelStepStatus::Finished
    }

    pub fn get_failed() -> (r: ForwardModelStepStatus)
        ensures
            r == ForwardModelStepStatus::Failed,
    {
        ForwardModelStepStatus::Failed
    }

    pub fn get_running() -> (r: ForwardModelStepStatus)
        ensures
            r == ForwardModelStepStatus::Running,
    {
        ForwardModelStepStatus::Running
    }
}

/// Status of one realization.
#[derive(Clone, Copy, Debug, PartialEq, Eq, Structural)]
pub enum RealizationState {
    Waiting,
    Pending,
    Running,
    Failed,
    Finished,
    Unknown,
    Timeout,
}

impl RealizationState {
    pub fn get_unknown() -> (r: RealizationState)
        ensures
            r == RealizationState::Unknown,
    {
        RealizationState::Unknown
    }

    pub fn get_waiting() -> (r: RealizationState)
        ensures
            r == RealizationState::Waiting,
    {
        RealizationState::Waiting
    }

    pub fn get_pending() -> (r: RealizationState)
        ensures
            r == RealizationState::Pending,
    {
        RealizationState::Pending
    }

    pub fn get_running() -> (r: RealizationState)
        ensures
            r == RealizationState::Running,
    {
        RealizationState::Running
    }

    pub fn get_failed() -> (r: RealizationState)
        ensures
            r == RealizationState::Failed,
    {
        RealizationState::Failed
    }

    pub fn get_finished() -> (r: RealizationState)
        ensures
            r == RealizationState::Finished,
    {
        RealizationState::Finished
    }

    pub fn get_timeout() -> (r: RealizationState)
        ensures
            r == RealizationState::Timeout,
    {
        RealizationState::Timeout
    }

    /// The name of the state, as it is written on the wire.
    pub open spec fn name(self) -> Seq<char> {
        match self {
            RealizationState::Waiting => "Waiting"@,
            RealizationState::Pending => "Pending"@,
            RealizationState::Running => "Running"@,
            RealizationState::Failed => "Failed"@,
            RealizationState::Finished => "Finished"@,
            RealizationState::Unknown => "Unknown"@,
            RealizationState::Timeout => "Timeout"@,
        }
    }

    pub fn to_str(self) -> (r: &'static str)
        ensures
            r@ == self.name(),
    {
        match self {
            RealizationState::Waiting => "Waiting",
            RealizationState::Pending => "Pending",
            RealizationState::Running => "Running",
            RealizationState::Failed => "Failed",
            RealizationState::Finished => "Finished",
            RealizationState::Unknown => "Unknown",
            RealizationState::Timeout => "Timeout",
        }
    }
}

/// State of the whole ensemble, as carried by ensemble events and snapshots.
#[derive(Clone, Copy, Debug, PartialEq, Eq, Structural)]
pub enum EnsembleStatus {
    Started,
    Succeeded,
    Failed,
    Cancelled,
    Unknown,
}

impl EnsembleStatus {
    pub fn get_started() -> (r: Self)
        ensures
            r == EnsembleStatus::Started,
    {
        EnsembleStatus::Started
    }

    pub fn get_succeeded() -> (r: Self)
        ensures
            r == EnsembleStatus::Succeeded,
    {
        EnsembleStatus::Succeeded
    }

    pub fn get_failed() -> (r: Self)
        ensures
            r == EnsembleStatus::Failed,
    {
        EnsembleStatus::Failed
    }

    pub fn get_cancelled() -> (r: Self)
        ensures
            r == EnsembleStatus::Cancelled,
    {
        EnsembleStatus::Cancelled
    }
}

/// The evaluator's own view of the ensemble, which gates the side effects
/// of each batch.
#[derive(Clone, Copy, Debug, PartialEq, Eq, Structural)]
pub enum EnsembleState {
    Started,
    Stopped,
    Cancelled,
    Failed,
    Unknown,
}

impl EnsembleState {
    pub open spec fn name(self) -> Seq<char> {
        match self {
            EnsembleState::Started => "Starting"@,
            EnsembleState::Unknown => "Unknown"@,
            EnsembleState::Stopped => "Stopped"@,
            EnsembleState::Cancelled => "Cancelled"@,
            EnsembleState::Failed => "Failed"@,
        }
    }

    pub fn as_str(&self) -> (r: &'static str)
        ensures
            r@ == self.name(),
    {
        match self {
            EnsembleState::Started => "Starting",
            EnsembleState::Unknown => "Unknown",
            EnsembleState::Stopped => "Stopped",
            EnsembleState::Cancelled => "Cancelled",
            EnsembleState::Failed => "Failed",
        }
    }
}

} // verus!
