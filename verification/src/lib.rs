//! A task-supervision library: a pool of simulated background jobs is spawned,
//! watched, and cooperatively cancelled, individually or all at once.
//!
//! The supervisor owns one bookkeeping record per job, drains a bounded status
//! channel each tick, applies the record state machine, and reconciles jobs
//! whose execution context has finished. Workers poll a broadcast control
//! channel at safe points and self-terminate when asked to stop.

pub mod ext;
pub mod messages;
pub mod record;
pub mod supervisor;
pub mod table;
pub mod worker;
