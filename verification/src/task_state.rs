use vstd::prelude::*;

verus! {

/// Lifecycle state of one task record.
///
/// The machine is strictly ordered: `Created` is the initial state,
/// `Running` is reached by a successful start, `Stopped` by a failed start
/// or a failed delete (a rollback), `Exited` is written unconditionally
/// once the workload's exit is observed, and `Deleted` is reached only by
/// a successful delete.  `Exited` and `Deleted` are terminal but for the
/// exit overwrite, which records a fact about the external process and is
/// never rejected by policy.
#[derive(Clone, Copy, Debug, PartialEq, Eq, Structural)]
pub enum TaskState {
    Created,
    Running,
    Stopped,
    Exited,
    Deleted,
}

/// A start is valid only from `Created`: a task gets exactly one start
/// attempt, successful or not.
pub open spec fn start_allowed(s: TaskState) -> bool {
    s is Created
}

/// A kill is valid only while the task is `Running`.
pub open spec fn kill_allowed(s: TaskState) -> bool {
    s is Running
}

/// A delete is valid from any state in which the workload is not running
/// and the record has not already been deleted.
pub open spec fn delete_allowed(s: TaskState) -> bool {
    s is Created || s is Stopped || s is Exited
}

/// A start attempt leaves the record `Running` on success and `Stopped` on
/// failure; from either state a later start is rejected, so the one start
/// attempt can never be repeated or retried.
pub proof fn lemma_start_not_repeatable(after: TaskState)
    requires
        after is Running || after is Stopped,
    ensures
        !start_allowed(after),
{
}

/// Before any start the record is still `Created`, where a kill is
/// rejected: a signal can only ever be delegated to a started workload.
pub proof fn lemma_kill_needs_start(s: TaskState)
    requires
        start_allowed(s),
    ensures
        !kill_allowed(s),
{
}

/// Kill and delete are mutually exclusive: in any state, at most one of
/// the two validations can pass, so a running task can never be deleted
/// and a deletable task can never be signalled.
pub proof fn lemma_kill_delete_exclusive(s: TaskState)
    ensures
        !(kill_allowed(s) && delete_allowed(s)),
{
}

} // verus!
