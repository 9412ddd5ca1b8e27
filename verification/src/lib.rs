//! Supervision core for a fleet of externally spawned tunnel processes.
//!
//! The library holds the verified logic of the supervisor: the instance
//! registry, process-lifecycle bookkeeping, per-tick health decisions,
//! the at-most-once "ready" notification ledger, and the shutdown plan.
//! All interaction with the operating system (spawning, killing, HTTP,
//! timers) is performed by the embedding binary, which executes the
//! `Action` plans this library produces and feeds the outcomes back in.

pub mod action;
pub mod config;
pub mod errors;
pub mod ledger;
pub mod manager;
pub mod monitor;
pub mod process;
pub mod text;
pub mod tunnel;
pub mod webhook;
