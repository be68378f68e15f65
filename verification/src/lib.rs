//! A minimal container runtime, as a verified library.
//!
//! The library holds the decision logic of the runtime: the command-line
//! grammar, the derivation of namespace and control-group names, the fixed
//! plan of pseudo-filesystem mounts with per-attempt tracking, the network
//! namespace registry, the child process setup pipeline, and the container
//! lifecycle state machine with its teardown guarantees. The surrounding
//! binary performs the actual system calls and feeds their outcomes back to
//! the state machine as events.

pub mod args;
pub mod child;
pub mod config;
pub mod errors;
pub mod lifecycle;
pub mod limits;
pub mod mounts;
pub mod names;
pub mod netns;
pub mod strutil;

pub use strutil::str_eq;
