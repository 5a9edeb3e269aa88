//! Lock path resolution.
//!
//! Every cooperating process on the host must coordinate through one and the
//! same lock file, so the path is a pure function of the home directory:
//! a fixed subdirectory and a fixed file name under it. No timestamps, no
//! process ids, no randomness.

use vstd::prelude::*;
use vstd::string::StringExecFns;
use crate::errors::NotifyError;

verus! {

/// The directory that holds the lock file, under the home directory.
pub open spec fn spec_lock_dir(home: Seq<char>) -> Seq<char> {
    home + "/.notify-lock"@
}

/// The lock file itself, inside the lock directory.
pub open spec fn spec_lock_file(home: Seq<char>) -> Seq<char> {
    spec_lock_dir(home) + "/say.lock"@
}

/// The resolved coordination point: the directory to create and the lock
/// file within it.
pub struct LockPaths {
    pub dir: String,
    pub file: String,
}

/// Derives the lock directory and lock file from the home directory, or
/// reports a configuration error when no home directory is available.
/// There is deliberately no fallback: a guessed home would silently
/// fragment the lock across users.
pub fn resolve_lock_paths(home: Option<String>) -> (r: Result<LockPaths, NotifyError>)
    ensures
        home matches Some(h) ==> (r matches Ok(p)
            && p.dir@ == spec_lock_dir(h@)
            && p.file@ == spec_lock_file(h@)),
        home is None ==> (r matches Err(e)
            && e matches NotifyError::ConfigurationError(m)
            && m@ == "HOME environment variable not set"@),
{
    match home {
        None => Err(NotifyError::ConfigurationError(String::from_str(
            "HOME environment variable not set",
        ))),
        Some(h) => {
            let mut dir = h;
            dir.append("/.notify-lock");
            let mut file = dir.clone();
            file.append("/say.lock");
            Ok(LockPaths { dir, file })
        },
    }
}

/// The resolved path depends on the home directory alone, so any two
/// resolutions under the same environment name the same coordination
/// point, across repeated invocations and across process restarts.
pub proof fn lemma_resolver_deterministic(p1: LockPaths, p2: LockPaths, home: Seq<char>)
    requires
        p1.dir@ == spec_lock_dir(home),
        p1.file@ == spec_lock_file(home),
        p2.dir@ == spec_lock_dir(home),
        p2.file@ == spec_lock_file(home),
    ensures
        p1.dir@ == p2.dir@,
        p1.file@ == p2.file@,
{
}

} // verus!
