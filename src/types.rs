//! Wire constants, timestamps and the heartbeat.

use vstd::prelude::*;
use vstd::string::StringSliceAdditionalSpecFns;

verus! {

/// A point in time: whole seconds since the Unix epoch and the nanoseconds
/// past that second.
#[derive(Clone, Copy, Debug, PartialEq, Eq, Structural)]
pub struct Timestamp {
    pub seconds: i64,
    pub nanos: u32,
}

/// The `event_type` strings of the wire schema.
pub struct Id;

impl Id {
    pub const FORWARD_MODEL_STEP_START: &'static str = "forward_model_step.start";
    pub const FORWARD_MODEL_STEP_RUNNING: &'static str = "forward_model_step.running";
    pub const FORWARD_MODEL_STEP_SUCCESS: &'static str = "forward_model_step.success";
    pub const FORWARD_MODEL_STEP_FAILURE: &'static str = "forward_model_step.failure";
    pub const FORWARD_MODEL_STEP_CHECKSUM: &'static str = "forward_model_step.checksum";
    pub const REALIZATION_FAILURE: &'static str = "realization.failure";
    pub const REALIZATION_PENDING: &'static str = "realization.pending";
    pub const REALIZATION_RUNNING: &'static str = "realization.running";
    pub const REALIZATION_SUCCESS: &'static str = "realization.success";
    pub const REALIZATION_UNKNOWN: &'static str = "realization.unknown";
    pub const REALIZATION_WAITING: &'static str = "realization.waiting";
    pub const REALIZATION_TIMEOUT: &'static str = "realization.timeout";
    pub const ENSEMBLE_STARTED: &'static str = "ensemble.started";
    pub const ENSEMBLE_SUCCEEDED: &'static str = "ensemble.succeeded";
    pub const ENSEMBLE_CANCELLED: &'static str = "ensemble.cancelled";
    pub const ENSEMBLE_FAILED: &'static str = "ensemble.failed";
    pub const EE_SNAPSHOT: &'static str = "ee.snapshot";
    pub const EE_SNAPSHOT_UPDATE: &'static str = "ee.snapshot_update";
    pub const EE_TERMINATED: &'static str = "ee.terminated";
    pub const EE_USER_CANCEL: &'static str = "ee.user_cancel";
    pub const EE_USER_DONE: &'static str = "ee.user_done";
}

pub const CONNECT_MSG: &'static str = "CONNECT";

pub const DISCONNECT_MSG: &'static str = "DISCONNECT";

pub const ACK_MSG: &'static str = "ACK";

/// Seconds between two heartbeats while clients are connected.
pub const HEARTBEAT_TIMEOUT_SECS: u64 = 5;

/// The heartbeat sent to every peer.
pub struct HeartBeat {
    pub msg: String,
}

impl HeartBeat {
    pub fn new() -> (r: Self)
        ensures
            r.msg@ == "BEAT"@,
    {
        HeartBeat { msg: String::from_str("BEAT") }
    }
}

/// The bytes of a text payload, as they go on the wire.
pub fn event_to_json(input: &str) -> (r: Vec<u8>)
    ensures
        r@ == input.spec_bytes(),
{
    vstd::slice::slice_to_vec(input.as_bytes())
}

} // verus!
