//! Supervision of a small fleet of user-session daemons: a session message
//! bus and two desktop portal daemons.
//!
//! The library holds the decision logic of the orchestrator: scanning a
//! process-table snapshot for matching processes, planning and delivering
//! termination signals, planning a fresh restart of the session bus,
//! planning a detached launch of a portal binary, and the polling state
//! machine that decides whether a launch succeeded and drives the bounded
//! retry loop.  Reading the process table, forking, sleeping and console
//! output are performed by the surrounding program, which hands snapshots
//! and events to these functions as plain values.

pub mod dbus;
pub mod logging;
pub mod orchestrator;
pub mod portal;
pub mod process;
pub mod strutil;
pub mod supervise;
