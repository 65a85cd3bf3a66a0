use vstd::prelude::*;
use crate::lock::{
    completes, lock_action, locked_after, may_resume, present_after, unlock_action, FsAction,
    FsOutcome,
};

verus! {

/// A lock request that completes leaves the instance holding the lock and a
/// sentinel file at its path, whatever was on disk before.
pub proof fn lemma_lock_holds(locked: bool, present: bool, outcome: FsOutcome)
    requires
        lock_action(locked) is Some,
        completes(lock_action(locked)->0, outcome),
    ensures
        locked_after(locked, lock_action(locked)->0, outcome),
        present_after(present, lock_action(locked)->0, outcome),
{
}

/// After a lock request that completes, a second lock request, with no unlock
/// in between, is refused and calls for no filesystem operation.
pub proof fn lemma_second_lock_refused(locked: bool, outcome: FsOutcome)
    requires
        lock_action(locked) is Some,
        completes(lock_action(locked)->0, outcome),
    ensures
        lock_action(locked_after(locked, lock_action(locked)->0, outcome)) is None,
{
}

/// An unlock request that completes leaves the instance free and no sentinel
/// file at its path.
pub proof fn lemma_unlock_frees(locked: bool, present: bool, outcome: FsOutcome)
    requires
        unlock_action(locked) is Some,
        completes(unlock_action(locked)->0, outcome),
    ensures
        !locked_after(locked, unlock_action(locked)->0, outcome),
        !present_after(present, unlock_action(locked)->0, outcome),
{
}

/// After an unlock request that completes, a second unlock request is refused
/// and calls for no filesystem operation.
pub proof fn lemma_second_unlock_refused(locked: bool, outcome: FsOutcome)
    requires
        unlock_action(locked) is Some,
        completes(unlock_action(locked)->0, outcome),
    ensures
        unlock_action(locked_after(locked, unlock_action(locked)->0, outcome)) is None,
{
}

/// Unlocking a held lock whose sentinel file was already removed by someone
/// else still succeeds and leaves the instance free.
pub proof fn lemma_unlock_tolerates_missing_file(message: String)
    ensures
        unlock_action(true) == Some(FsAction::RemoveFile),
        completes(FsAction::RemoveFile, FsOutcome::NotFound(message)),
        !locked_after(true, FsAction::RemoveFile, FsOutcome::NotFound(message)),
{
}

/// Releasing a held lock when it goes out of use is an unlock: it calls for
/// deleting the sentinel file, and unless that deletion fails for a reason
/// other than the file being gone, no file remains.
pub proof fn lemma_release_removes_file(present: bool, outcome: FsOutcome)
    requires
        !(outcome is Failed),
    ensures
        unlock_action(true) == Some(FsAction::RemoveFile),
        !present_after(present, FsAction::RemoveFile, outcome),
{
}

/// A waiter on an instance that does not hold the lock may stop at once,
/// whatever is on disk.
pub proof fn lemma_free_lock_resumes(file_exists: bool)
    ensures
        may_resume(false, file_exists),
{
}

/// A waiter on a held lock stops exactly when the sentinel file is gone or the
/// instance has been unlocked: it keeps waiting while the file is there and the
/// flag is set, and may stop after any unlock that completes.
pub proof fn lemma_held_lock_resumes_on_release(file_exists: bool, outcome: FsOutcome)
    requires
        completes(FsAction::RemoveFile, outcome),
    ensures
        may_resume(true, file_exists) <==> !file_exists,
        may_resume(locked_after(true, FsAction::RemoveFile, outcome), file_exists),
{
}

/// While only this instance acts on the sentinel path, its flag mirrors the
/// disk: if the flag agrees with whether the file is there, it still agrees
/// after any operation, whatever its outcome.
pub proof fn lemma_flag_mirrors_file(locked: bool, action: FsAction, outcome: FsOutcome)
    ensures
        locked_after(locked, action, outcome) == present_after(locked, action, outcome),
{
}

} // verus!
