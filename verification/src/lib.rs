//! Verified core of a batch value-transfer pipeline for a remote ledger.
//!
//! The library holds the decision logic of the pipeline: fixed-point amount
//! conversion, the per-request submission state machine, the bounded-retry
//! confirmation poller, the filtering of submitted transaction ids, and the
//! aggregation of per-item outcomes into a batch summary. The surrounding
//! process performs the network calls and feeds their results back in as
//! plain events.

pub mod amount;
pub mod batch;
pub mod outcome;
pub mod poll;
pub mod submit;
