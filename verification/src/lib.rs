//! A scheduled monitoring agent for advertising accounts.
//!
//! For each configured account the worker fetches the account's ads from the
//! advertising platform, applies a cost-efficiency policy to decide whether
//! each ad should be paused or reactivated, applies the decisions back to the
//! platform, and reports a human-readable summary to a messaging channel.
//!
//! This crate holds the verified core: the tolerant normalization of platform
//! payloads, the decision engine, the per-account cycle state machine, and all
//! message formatting. The surrounding process (HTTP, database, scheduling)
//! drives the state machine from outside and performs the I/O it requests.

pub mod decision;
pub mod facebook;
pub mod models;
pub mod money;
pub mod text;
pub mod worker;
