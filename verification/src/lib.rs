//! Supervised sidecar process lifecycle.
//!
//! The host application launches a bundled server script as a child process,
//! waits for it to report readiness on a health endpoint, exposes the server
//! port to the front-end, and terminates the child on shutdown. This crate
//! holds the decisions of that lifecycle: which script path to run, what
//! command line spawns it, which URL to probe, when a readiness poll retries
//! or gives up, and what the supervisor tracks in each phase. The host feeds
//! in what only it can observe (spawn outcomes, probe responses) and performs
//! the process and network work.

pub mod health;
pub mod launch;
pub mod paths;
pub mod poll;
pub mod supervisor;
