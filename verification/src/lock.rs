//! The advisory lock that serialises sessions of unrelated processes, and
//! the policy by which a session waits for it.

use file_lock::FileLock;
use vstd::prelude::*;

verus! {

/// How long a session polls for the lock before it gives up.
#[derive(Debug, Clone, Copy, PartialEq, Eq, Structural)]
pub struct LockPolicy {
    /// Number of waits after which a further failure is final.
    pub max_attempts: u32,
    /// Length of one wait, in seconds.
    pub poll_secs: u64,
}

impl LockPolicy {
    /// Thirty waits of one second each.
    pub open spec fn standard_spec() -> LockPolicy {
        LockPolicy { max_attempts: 30, poll_secs: 1 }
    }

    /// What follows an attempt that failed after `failed` earlier failures:
    /// the new count of failures if the session may wait and try again,
    /// `None` if the count would exceed `max_attempts`.
    pub open spec fn after_failure_spec(self, failed: u32) -> Option<u32> {
        if failed < self.max_attempts {
            Some((failed + 1) as u32)
        } else {
            None
        }
    }

    /// The longest time, in seconds, that a session spends waiting.
    pub open spec fn ceiling(self) -> nat {
        (self.max_attempts * self.poll_secs) as nat
    }

    /// The policy that sessions use unless told otherwise.
    pub fn standard() -> (policy: LockPolicy)
        ensures
            policy == Self::standard_spec(),
    {
        LockPolicy { max_attempts: 30, poll_secs: 1 }
    }

    /// Decides what follows a failed attempt: the new count of failures if
    /// the session waits and tries again, `None` if it gives up.
    pub fn after_failure(&self, failed: u32) -> (next: Option<u32>)
        ensures
            next == self.after_failure_spec(failed),
    {
        if failed < self.max_attempts {
            Some(failed + 1)
        } else {
            None
        }
    }
}

impl Default for LockPolicy {
    fn default() -> (policy: LockPolicy)
        ensures
            policy == LockPolicy::standard_spec(),
    {
        LockPolicy::standard()
    }
}

/// `file_lock::FileLock`, the handle of a granted lock. Nothing is known of
/// what is inside; it is taken from [`try_lock`] and handed to [`unlock`].
#[verifier::external_type_specification]
#[verifier::external_body]
pub struct ExFileLock(FileLock);

/// Makes one attempt to lock the file at `path`, by
/// `file_lock::FileLock::lock`: for writing, which excludes every other
/// lock, if `writable`, and for reading otherwise.
///
/// The blocking form of the call returns only when the lock is free, which
/// may be never; it is left out. The other form returns at once. Whether it
/// succeeds depends on what other processes hold, so nothing is claimed of
/// the result: `Some` carries the handle of a lock that was granted, `None`
/// stands for every error of the call. The lock is given up when the handle
/// is dropped.
#[verifier::external_body]
pub(crate) fn try_lock(path: &str, blocking: bool, writable: bool) -> (held: Option<FileLock>)
    requires
        !blocking,
{
    match FileLock::lock(path, blocking, writable) {
        Ok(lock) => Some(lock),
        Err(_) => None,
    }
}

/// Gives a granted lock back, by `file_lock::FileLock::unlock`, and closes
/// the file. An error of the call is not reported: the lock goes with the
/// handle in any case.
#[verifier::external_body]
pub(crate) fn unlock(lock: FileLock) {
    let _ = lock.unlock();
}

} // verus!
