use vstd::prelude::*;

use crate::protocol::Mount;
use crate::timestamp::Timestamp;

verus! {

/// One lifecycle event, published by the service as a side effect of the
/// operation it reports.  Events accumulate in the service's event log in
/// the order they were emitted; the embedding program drains the log and
/// delivers each event to the event bus.
#[derive(Debug, Clone, PartialEq)]
#[allow(inconsistent_fields)]
pub enum TaskEvent {
    /// A record was created and registered.
    Create {
        container_id: String,
        bundle: String,
        rootfs: Vec<Mount>,
        stdin: String,
        stdout: String,
        stderr: String,
    },
    /// A workload was started; `pid` is its process id.
    Start { container_id: String, pid: u32 },
    /// A started workload was observed to exit, by the exit watcher.
    Exit { container_id: String, pid: u32, exit_status: u32, exited_at: Timestamp },
    /// A record was deleted and unregistered.  The exit fields carry
    /// whatever was known at deletion time: zero-valued / absent if the
    /// task never started or its exit was never observed.
    Delete { container_id: String, pid: u32, exit_status: u32, exited_at: Option<Timestamp> },
}

} // verus!
