//! A connectivity health-check harness: decides whether a service probe
//! should run (enable flag plus TCP reachability), executes the probe under
//! wall-clock timing with uniform error capture, and aggregates the outcomes
//! into a summary and a process exit code.

pub mod config;
pub mod executor;
pub mod gate;
pub mod outcome;
pub mod report;
pub mod text;
