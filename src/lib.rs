//! Watches a ledger address until an expected amount arrives at the required
//! confirmation depth, and decides when and what to notify.
//!
//! The library holds the decisions: the watch record and its status, the
//! aggregation of a scan into a confirmed amount, and the state machine that
//! drives one watch from event to event. Talking to the ledger node, sleeping
//! and pushing notifications are done by the caller, which hands each outcome
//! back as an event.

pub mod clock;
pub mod status;
pub mod aggregate;
pub mod webhook;
pub mod watch;
pub mod laws;
pub mod form;
