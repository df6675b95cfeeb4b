//! Tail a file when it can be read, or hand its path to a fallback command.
//!
//! The library holds the decisions: whether a path can be tailed, which
//! command to run, what a finished child means for this process, and the
//! text of every message. The program around it does the probing, spawning
//! and logging.

pub mod access;
pub mod error;
pub mod plan;
pub mod runner;
pub mod text;
