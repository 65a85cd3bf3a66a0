use vstd::prelude::*;

verus! {

/// Milliseconds between two checks of a waiter on a held lock.
pub const POLL_INTERVAL_MS: u64 = 2;

/// A filesystem operation on the sentinel path that the caller is asked to perform.
#[derive(Clone, Copy, Debug, PartialEq, Eq, Structural)]
pub enum FsAction {
    /// Create an empty file at the path, truncating one that is already there.
    CreateFile,
    /// Delete the file at the path.
    RemoveFile,
}

/// How a filesystem operation on the sentinel path ended.
#[derive(Clone, Debug)]
pub enum FsOutcome {
    /// The operation succeeded.
    Done,
    /// The operation failed because no file or directory was found; the text
    /// describes the failure.
    NotFound(String),
    /// The operation failed for any other reason; the text describes it.
    Failed(String),
}

/// What a waiter on a [`FileLock`] does next.
#[derive(Clone, Copy, Debug, PartialEq, Eq, Structural)]
pub enum WaitStep {
    /// Stop waiting: the lock is free.
    Ready,
    /// Keep waiting: check again, this many milliseconds from now, whether the
    /// file is still at the path.
    Recheck(u64),
}

/// Whether `outcome` completes `action`. A creation must succeed; a deletion
/// also counts as done when the file was already gone.
pub open spec fn completes(action: FsAction, outcome: FsOutcome) -> bool {
    match outcome {
        FsOutcome::Done => true,
        FsOutcome::NotFound(_) => action == FsAction::RemoveFile,
        FsOutcome::Failed(_) => false,
    }
}

/// The text that describes a failed outcome.
pub open spec fn outcome_text(outcome: FsOutcome) -> Seq<char> {
    match outcome {
        FsOutcome::Done => Seq::empty(),
        FsOutcome::NotFound(m) => m@,
        FsOutcome::Failed(m) => m@,
    }
}

/// The operation that `lock` calls for on an instance whose flag is `locked`:
/// none when it already holds the lock.
pub open spec fn lock_action(locked: bool) -> Option<FsAction> {
    if locked {
        None
    } else {
        Some(FsAction::CreateFile)
    }
}

/// The operation that `unlock` calls for on an instance whose flag is
/// `locked`: none when it does not hold the lock.
pub open spec fn unlock_action(locked: bool) -> Option<FsAction> {
    if locked {
        Some(FsAction::RemoveFile)
    } else {
        None
    }
}

/// The flag after `action`, begun with the flag at `locked`, ended with
/// `outcome`: an operation that completes sets it, one that does not leaves it.
pub open spec fn locked_after(locked: bool, action: FsAction, outcome: FsOutcome) -> bool {
    if completes(action, outcome) {
        action == FsAction::CreateFile
    } else {
        locked
    }
}

/// Whether a file is at the sentinel path after `action` ended with `outcome`,
/// given whether one was there before. This is the on-disk protocol: a
/// creation that succeeds leaves a file, a deletion that succeeds or finds
/// nothing leaves none, and a failed operation changes nothing.
pub open spec fn present_after(present: bool, action: FsAction, outcome: FsOutcome) -> bool {
    match outcome {
        FsOutcome::Done => action == FsAction::CreateFile,
        FsOutcome::NotFound(_) => action == FsAction::CreateFile && present,
        FsOutcome::Failed(_) => present,
    }
}

/// Whether a waiter may stop: the instance no longer holds the lock, or the
/// sentinel file is gone.
pub open spec fn may_resume(locked: bool, file_exists: bool) -> bool {
    !locked || !file_exists
}

/// Why a request on a [`FileLock`] was refused.
#[derive(Clone, Debug)]
pub enum LockError {
    /// `lock` was called on an instance that already holds the lock; the text
    /// is the sentinel path.
    AlreadyLocked(String),
    /// `unlock` was called on an instance that does not hold the lock; the text
    /// is the sentinel path.
    NotLocked(String),
    /// The filesystem operation failed; the text describes the cause.
    IoFailure(String),
}

/// A lock held by the presence of a sentinel file at `lock_file_path`.
///
/// `locked` is this instance's own belief that it holds the lock: seeded from
/// whether the file existed when the instance was made, then changed only by a
/// completed `lock` or `unlock`.
#[derive(Clone, Debug)]
pub struct FileLock {
    pub locked: bool,
    lock_file_path: String,
}

/// The abstract state of a [`FileLock`]: whether it believes it holds the
/// lock, and the sentinel path.
pub struct LockView {
    pub locked: bool,
    pub path: Seq<char>,
}

impl View for FileLock {
    type V = LockView;

    closed spec fn view(&self) -> LockView {
        LockView { locked: self.locked, path: self.lock_file_path@ }
    }
}

impl FileLock {
    /// Makes a lock over `lock_file_path`; `exists` is whether a file was found
    /// at that path just now. The file itself is not touched.
    pub fn new(lock_file_path: String, exists: bool) -> (r: FileLock)
        ensures
            r@.locked == exists,
            r@.path == lock_file_path@,
    {
        FileLock { locked: exists, lock_file_path }
    }

    /// The sentinel path.
    pub fn path(&self) -> (r: &str)
        ensures
            r@ == self@.path,
    {
        self.lock_file_path.as_str()
    }

    /// Starts taking the lock. Refused with `AlreadyLocked` when this instance
    /// already holds it, in which case nothing is to be done on disk; otherwise
    /// the caller is to create the sentinel file and report to `complete`.
    pub fn lock(&self) -> (r: Result<FsAction, LockError>)
        ensures
            r is Ok <==> lock_action(self@.locked) is Some,
            r matches Ok(a) ==> lock_action(self@.locked) == Some(a),
            r matches Err(e) ==> e matches LockError::AlreadyLocked(p) && p@ == self@.path,
    {
        if self.locked {
            Err(LockError::AlreadyLocked(self.lock_file_path.clone()))
        } else {
            Ok(FsAction::CreateFile)
        }
    }

    /// Starts releasing the lock. Refused with `NotLocked` when this instance
    /// does not hold it, in which case nothing is to be done on disk; otherwise
    /// the caller is to delete the sentinel file and report to `complete`.
    pub fn unlock(&self) -> (r: Result<FsAction, LockError>)
        ensures
            r is Ok <==> unlock_action(self@.locked) is Some,
            r matches Ok(a) ==> unlock_action(self@.locked) == Some(a),
            r matches Err(e) ==> e matches LockError::NotLocked(p) && p@ == self@.path,
    {
        if self.locked {
            Ok(FsAction::RemoveFile)
        } else {
            Err(LockError::NotLocked(self.lock_file_path.clone()))
        }
    }

    /// Finishes a `lock` or `unlock` whose operation `action` ended with
    /// `outcome`. When the outcome completes the action the flag takes its new
    /// value; otherwise it is left as it was and the failure is returned as
    /// `IoFailure`, so that the caller may retry.
    pub fn complete(&mut self, action: FsAction, outcome: FsOutcome) -> (r: Result<(), LockError>)
        ensures
            final(self)@.locked == locked_after(old(self)@.locked, action, outcome),
            final(self)@.path == old(self)@.path,
            r is Ok <==> completes(action, outcome),
            r matches Err(e) ==> e matches LockError::IoFailure(m) && m@ == outcome_text(outcome),
    {
        match outcome {
            FsOutcome::Done => {
                self.locked = action == FsAction::CreateFile;
                Ok(())
            },
            FsOutcome::NotFound(m) => {
                if action == FsAction::RemoveFile {
                    self.locked = false;
                    Ok(())
                } else {
                    Err(LockError::IoFailure(m))
                }
            },
            FsOutcome::Failed(m) => Err(LockError::IoFailure(m)),
        }
    }

    /// Starts waiting for the lock to be free. An instance that does not hold
    /// it is ready at once, without looking at the disk; otherwise the caller
    /// is to check for the file and ask `poll`.
    pub fn wait(&self) -> (r: WaitStep)
        ensures
            r == (if self@.locked {
                WaitStep::Recheck(POLL_INTERVAL_MS)
            } else {
                WaitStep::Ready
            }),
    {
        if self.locked {
            WaitStep::Recheck(POLL_INTERVAL_MS)
        } else {
            WaitStep::Ready
        }
    }

    /// One check of a waiter: `file_exists` is whether the sentinel file was
    /// found just now. Ready once this instance no longer holds the lock or the
    /// file is gone; otherwise the caller is to check again after the interval
    /// given.
    pub fn poll(&self, file_exists: bool) -> (r: WaitStep)
        ensures
            r == (if may_resume(self@.locked, file_exists) {
                WaitStep::Ready
            } else {
                WaitStep::Recheck(POLL_INTERVAL_MS)
            }),
    {
        if !self.locked || !file_exists {
            WaitStep::Ready
        } else {
            WaitStep::Recheck(POLL_INTERVAL_MS)
        }
    }
}

} // verus!
