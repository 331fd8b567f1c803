//! Supervision of a single helper process, written without any I/O of its own.
//!
//! The host performs every operating-system action (probing, killing, spawning,
//! sleeping, polling the health endpoint) and reports what happened; the types
//! here decide what is tracked, what happens next and what the caller is told.

pub mod messages;
pub mod registry;
pub mod paths;
pub mod health;
pub mod supervisor;
pub mod laws;
