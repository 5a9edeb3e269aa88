//! The error taxonomy of the dispatch core.
//!
//! Once a request has been acknowledged, every later failure is logged and
//! never surfaced to the caller; only a failure to spawn the detached child
//! happens before acknowledgment and so can reach a caller.

use vstd::prelude::*;
use vstd::string::StringExecFns;

verus! {

/// One failure of the serialized unit or of dispatch, with its detail text.
#[derive(Debug)]
pub enum NotifyError {
    /// The home directory is unavailable, or the lock directory could not
    /// be created.
    ConfigurationError(String),
    /// Opening or locking the lock file failed at the OS level. Contention
    /// is never an error: it resolves by blocking.
    LockAcquisitionError(String),
    /// The speech backend could not be spawned, or exited with a non-zero
    /// status.
    BackendExecutionError(String),
    /// The detached child of the one-shot command could not be launched.
    SpawnError(String),
}

impl NotifyError {
    /// Renders the error as one line: a fixed class prefix and the detail.
    pub fn message(&self) -> (r: String)
        ensures
            self matches NotifyError::ConfigurationError(d)
                ==> r@ == "configuration error: "@ + d@,
            self matches NotifyError::LockAcquisitionError(d)
                ==> r@ == "lock acquisition error: "@ + d@,
            self matches NotifyError::BackendExecutionError(d)
                ==> r@ == "backend execution error: "@ + d@,
            self matches NotifyError::SpawnError(d)
                ==> r@ == "spawn error: "@ + d@,
    {
        match self {
            NotifyError::ConfigurationError(d) => {
                let mut s = String::from_str("configuration error: ");
                s.append(d.as_str());
                s
            },
            NotifyError::LockAcquisitionError(d) => {
                let mut s = String::from_str("lock acquisition error: ");
                s.append(d.as_str());
                s
            },
            NotifyError::BackendExecutionError(d) => {
                let mut s = String::from_str("backend execution error: ");
                s.append(d.as_str());
                s
            },
            NotifyError::SpawnError(d) => {
                let mut s = String::from_str("spawn error: ");
                s.append(d.as_str());
                s
            },
        }
    }
}

} // verus!
