//! Serialization and dispatch core for a text-to-speech notifier.
//!
//! At most one utterance may play on the host at a time. The crate models
//! the coordination logic: deriving the lock path from the home directory,
//! planning a command-line invocation, the serialized unit of work that
//! acquires the lock, runs the speech backend and releases the lock, and a
//! model of the host-wide lock under which mutual exclusion is proved.

pub mod cli;
pub mod errors;
pub mod lock;
pub mod paths;
pub mod protocol;
pub mod unit;
