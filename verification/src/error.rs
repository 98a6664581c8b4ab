use vstd::prelude::*;

verus! {

/// The service's error taxonomy.  Every validation failure is reported
/// through one of these variants before any state is mutated; workload
/// handles report their own failures through `Other` or any variant they
/// see fit.
#[derive(Debug, Clone, PartialEq)]
pub enum Error {
    /// An unsupported request shape: a terminal request, an exec id on a
    /// lookup, or a stats request for a task with no recorded process id.
    InvalidArgument(String),
    /// A `create` named a task id that is already registered.
    AlreadyExists(String),
    /// A lookup named a task id that is not registered.
    NotFound(String),
    /// A lifecycle precondition was violated: starting twice, killing a
    /// task that is not running, deleting a running task.
    InvalidState(String),
    /// A feature the service rejects outright: checkpoint/restore, exec.
    Unimplemented(String),
    /// A pass-through failure from the workload handle.
    Other(String),
}

} // verus!
