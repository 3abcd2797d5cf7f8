//! Message-processing core of an ensemble evaluator broker: the snapshot
//! model with its field-wise merge, the event taxonomy, the batcher, the
//! reducer with its ensemble state machine, and the router and publisher
//! decisions. Sockets, threads and JSON live outside this crate.

pub mod table;
pub mod status;
pub mod utils;
pub mod types;
pub mod events;
pub mod fm_step_snapshot;
pub mod realization_snapshot;
pub mod ensemble_snapshot;
pub mod batch;
pub mod queue;
pub mod evaluator;
pub mod router;
pub mod publisher;
pub mod laws;
