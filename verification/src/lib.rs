//! Supervision of one long-running helper process ("sidecar") on behalf of a
//! desktop application shell.
//!
//! The crate holds the decisions of the supervisor: the single slot that owns
//! the handle of the running helper, the environment the helper is started
//! with, the order of the startup steps, what each event of the helper's
//! output stream becomes in the log, and what a lifecycle signal of the host
//! does to the helper. Creating directories, starting and ending processes
//! and writing log records are left to the caller, which hands the outcomes
//! in as plain values.

pub mod config;
pub mod drain;
pub mod slot;
pub mod supervisor;
pub mod text;
