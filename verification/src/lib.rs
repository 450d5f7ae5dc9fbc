//! Runs an external command-line tool as a child process, captures its two
//! output pipes as tagged line streams, and aggregates them into a final
//! result (exit status plus per-pipe text), optionally mirroring every line
//! to a best-effort sink channel.
//!
//! The asynchronous plumbing (spawning the child, awaiting pipe reads) lives
//! with the caller; this crate holds the verified decision and aggregation
//! logic that the caller drives one event at a time.

pub mod action;
pub mod mux;
pub mod nx;
pub mod projects;
pub mod sink;
pub mod streamable_command;
