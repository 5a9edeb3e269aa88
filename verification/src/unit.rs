//! The serialized unit of work.
//!
//! One unit owns one speech request end to end: resolve the lock path,
//! acquire the lock, run the backend, release the lock, log. The unit is a
//! step machine: the front end performs each returned action against the
//! outside world (environment, filesystem, lock, child process) and feeds
//! the outcome back as the next event. Every decision — in particular that
//! the backend runs only under the lock, and that the lock is released
//! whether the backend succeeded or failed — is made here.

use vstd::prelude::*;
use vstd::string::StringExecFns;
use crate::errors::NotifyError;

verus! {

/// Where one unit stands in its lifecycle.
pub enum UnitPhase {
    /// Created, not yet started.
    Ready,
    /// Waiting for the lock path to be resolved.
    Resolving,
    /// Path in hand; waiting for the exclusive lock.
    Acquiring,
    /// Lock held; the backend is running.
    Speaking,
    /// Backend finished (well or badly); waiting for the lock release.
    Releasing(Option<NotifyError>),
    /// Done; the failure, if any, is recorded for logging.
    Finished(Option<NotifyError>),
}

/// The outcome of one action, reported back to the unit.
pub enum UnitEvent {
    /// Start the unit.
    Begin,
    /// The lock path was resolved and the lock directory exists.
    PathOk(String),
    /// The path could not be resolved or the directory not created.
    PathErr(String),
    /// The exclusive lock was granted.
    LockOk,
    /// Opening or locking the lock file failed at the OS level.
    LockErr(String),
    /// The backend exited successfully.
    BackendOk,
    /// The backend could not be spawned or exited non-zero; the detail
    /// carries its diagnostics.
    BackendErr(String),
    /// The lock was released.
    Released,
}

/// What the front end must do next on behalf of the unit.
pub enum UnitAction {
    /// Resolve the lock path and ensure the lock directory exists.
    ResolvePath,
    /// Open the named lock file and take the blocking exclusive lock.
    AcquireLock(String),
    /// Run the speech backend with this text and wait for it.
    RunBackend(String),
    /// Release the exclusive lock.
    ReleaseLock,
    /// The unit is finished; log its outcome.
    Finish,
    /// The event did not fit the phase; nothing changed.
    Reject,
}

/// One speech request and its progress.
pub struct Unit {
    pub text: String,
    pub phase: UnitPhase,
}

/// True when `ev` is the event the phase `ph` is waiting for.
pub open spec fn event_fits(ph: UnitPhase, ev: UnitEvent) -> bool {
    match (ph, ev) {
        (UnitPhase::Ready, UnitEvent::Begin) => true,
        (UnitPhase::Resolving, UnitEvent::PathOk(_)) => true,
        (UnitPhase::Resolving, UnitEvent::PathErr(_)) => true,
        (UnitPhase::Acquiring, UnitEvent::LockOk) => true,
        (UnitPhase::Acquiring, UnitEvent::LockErr(_)) => true,
        (UnitPhase::Speaking, UnitEvent::BackendOk) => true,
        (UnitPhase::Speaking, UnitEvent::BackendErr(_)) => true,
        (UnitPhase::Releasing(_), UnitEvent::Released) => true,
        _ => false,
    }
}

/// The phase after `ev` arrives in phase `ph`. An event that does not fit
/// the phase changes nothing.
pub open spec fn phase_after(ph: UnitPhase, ev: UnitEvent) -> UnitPhase {
    match (ph, ev) {
        (UnitPhase::Ready, UnitEvent::Begin) => UnitPhase::Resolving,
        (UnitPhase::Resolving, UnitEvent::PathOk(_)) => UnitPhase::Acquiring,
        (UnitPhase::Resolving, UnitEvent::PathErr(m)) => UnitPhase::Finished(
            Some(NotifyError::ConfigurationError(m)),
        ),
        (UnitPhase::Acquiring, UnitEvent::LockOk) => UnitPhase::Speaking,
        (UnitPhase::Acquiring, UnitEvent::LockErr(m)) => UnitPhase::Finished(
            Some(NotifyError::LockAcquisitionError(m)),
        ),
        (UnitPhase::Speaking, UnitEvent::BackendOk) => UnitPhase::Releasing(None),
        (UnitPhase::Speaking, UnitEvent::BackendErr(m)) => UnitPhase::Releasing(
            Some(NotifyError::BackendExecutionError(m)),
        ),
        (UnitPhase::Releasing(e), UnitEvent::Released) => UnitPhase::Finished(e),
        (p, _) => p,
    }
}

impl Unit {
    /// A fresh unit for one text payload.
    pub fn new(text: String) -> (r: Unit)
        ensures
            r.text == text,
            r.phase is Ready,
    {
        Unit { text, phase: UnitPhase::Ready }
    }

    /// Takes one event and returns the advanced unit together with the
    /// next action for the front end to perform.
    pub fn step(self, ev: UnitEvent) -> (r: (Unit, UnitAction))
        ensures
            r.0.text@ == self.text@,
            r.0.phase == phase_after(self.phase, ev),
            self.phase is Ready && ev is Begin ==> r.1 is ResolvePath,
            self.phase is Resolving ==> (ev matches UnitEvent::PathOk(p)
                ==> (r.1 matches UnitAction::AcquireLock(q) && q@ == p@)),
            self.phase is Acquiring && ev is LockOk
                ==> (r.1 matches UnitAction::RunBackend(t) && t@ == self.text@),
            self.phase is Speaking && (ev is BackendOk || ev is BackendErr)
                ==> r.1 is ReleaseLock,
            (self.phase is Resolving && ev is PathErr)
                || (self.phase is Acquiring && ev is LockErr)
                || (self.phase is Releasing && ev is Released)
                ==> r.1 is Finish,
            !event_fits(self.phase, ev) ==> r.1 is Reject && r.0 == self,
    {
        let Unit { text, phase } = self;
        match (phase, ev) {
            (UnitPhase::Ready, UnitEvent::Begin) => (
                Unit { text, phase: UnitPhase::Resolving },
                UnitAction::ResolvePath,
            ),
            (UnitPhase::Resolving, UnitEvent::PathOk(p)) => (
                Unit { text, phase: UnitPhase::Acquiring },
                UnitAction::AcquireLock(p),
            ),
            (UnitPhase::Resolving, UnitEvent::PathErr(m)) => (
                Unit { text, phase: UnitPhase::Finished(Some(NotifyError::ConfigurationError(m))) },
                UnitAction::Finish,
            ),
            (UnitPhase::Acquiring, UnitEvent::LockOk) => {
                let spoken = text.clone();
                (Unit { text, phase: UnitPhase::Speaking }, UnitAction::RunBackend(spoken))
            },
            (UnitPhase::Acquiring, UnitEvent::LockErr(m)) => (
                Unit {
                    text,
                    phase: UnitPhase::Finished(Some(NotifyError::LockAcquisitionError(m))),
                },
                UnitAction::Finish,
            ),
            (UnitPhase::Speaking, UnitEvent::BackendOk) => (
                Unit { text, phase: UnitPhase::Releasing(None) },
                UnitAction::ReleaseLock,
            ),
            (UnitPhase::Speaking, UnitEvent::BackendErr(m)) => (
                Unit {
                    text,
                    phase: UnitPhase::Releasing(Some(NotifyError::BackendExecutionError(m))),
                },
                UnitAction::ReleaseLock,
            ),
            (UnitPhase::Releasing(e), UnitEvent::Released) => (
                Unit { text, phase: UnitPhase::Finished(e) },
                UnitAction::Finish,
            ),
            (p, _) => (Unit { text, phase: p }, UnitAction::Reject),
        }
    }

    /// The recorded failure of a finished unit, for logging; `None` both
    /// for a unit that succeeded and for one not yet finished.
    pub fn outcome(self) -> (r: Option<NotifyError>)
        ensures
            self.phase matches UnitPhase::Finished(e) ==> r == e,
            self.phase !is Finished ==> r is None,
    {
        match self.phase {
            UnitPhase::Finished(e) => e,
            _ => None,
        }
    }
}

/// Judges one completed run of the backend: a successful exit is success;
/// a non-zero exit becomes a backend failure whose detail carries the
/// captured diagnostic stream.
pub fn backend_outcome_event(success: bool, stderr: String) -> (r: UnitEvent)
    ensures
        success ==> r is BackendOk,
        !success ==> (r matches UnitEvent::BackendErr(m)
            && m@ == "say command failed: "@ + stderr@),
{
    if success {
        UnitEvent::BackendOk
    } else {
        let mut m = String::from_str("say command failed: ");
        m.append(stderr.as_str());
        UnitEvent::BackendErr(m)
    }
}

/// A unit comes to speak only by being granted the lock: if a step ends in
/// the speaking phase, either the lock was granted by that very step, or
/// the unit was already speaking and nothing changed.
pub proof fn lemma_speaking_only_after_grant(ph: UnitPhase, ev: UnitEvent)
    requires
        phase_after(ph, ev) is Speaking,
    ensures
        (ph is Acquiring && ev is LockOk) || (ph is Speaking && !event_fits(ph, ev)),
{
}

/// Whatever the backend reports — success or failure — the next phase is
/// the releasing phase: the lock is never kept past the utterance, and a
/// backend failure is recorded rather than raised.
pub proof fn lemma_speaking_always_releases(ev: UnitEvent)
    requires
        event_fits(UnitPhase::Speaking, ev),
    ensures
        phase_after(UnitPhase::Speaking, ev) matches UnitPhase::Releasing(f)
            && (ev is BackendOk ==> f is None)
            && (ev matches UnitEvent::BackendErr(m)
                ==> f == Some(NotifyError::BackendExecutionError(m))),
{
}

} // verus!
