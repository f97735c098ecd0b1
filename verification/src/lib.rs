//! Provisioning of a fleet of remote hosts over secure shell sessions.
//!
//! The crate holds the decisions of a fleet run: which credentials a host
//! is opened with, which commands it is sent and in which order, how the
//! result of each command is judged, and how the per-host outcomes add up.
//! The network traffic itself is the caller's business: every state machine
//! here names the next piece of outside work and takes its result back.

pub mod command;
pub mod config;
pub mod connector;
pub mod executor;
pub mod fleet;
pub mod outcome;
pub mod reply;
pub mod report;
pub mod runner;
