//! A sandbox that runs an untrusted WebAssembly module under a cost budget and a
//! memory ceiling, with deterministic time and randomness.
//!
//! This crate holds the rules of the sandbox: the static cost table and the guard
//! that meters every basic block, the memory ceiling, the deterministic host
//! answers, the classification of how a run ended, and the judging of outputs.

pub mod config;
pub mod cost;
pub mod deterministic_time;
pub mod judger;
pub mod memory;
pub mod random;
pub mod run;
pub mod server;
pub mod text;

pub use run::{RunError, RunRequest, RunResult};
