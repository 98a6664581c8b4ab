use vstd::prelude::*;

use crate::error::Error;
use crate::instance::{Instance, InstanceConfig};
use crate::task_state::{delete_allowed, kill_allowed, start_allowed, TaskState};
use crate::timestamp::Timestamp;

verus! {

/// One task record: the per-workload unit of state.  It owns the workload
/// handle, the immutable configuration, the write-once process-id slot and
/// the lifecycle state, and it enforces the state machine: every operation
/// validates the current state before delegating to the handle, and the
/// validation and the delegated call form one step, so no caller can act
/// on a half-transitioned record.
pub struct InstanceData<T: Instance> {
    pub instance: T,
    cfg: InstanceConfig,
    pid: Option<u32>,
    state: TaskState,
}

impl<T: Instance> InstanceData<T> {
    pub closed spec fn spec_state(&self) -> TaskState {
        self.state
    }

    pub closed spec fn spec_pid(&self) -> Option<u32> {
        self.pid
    }

    pub closed spec fn spec_config(&self) -> InstanceConfig {
        self.cfg
    }

    /// The record's invariant: before any start attempt the process-id
    /// slot is empty, and a running record always has one — the slot is
    /// filled exactly by the successful start, and never changed again.
    pub open spec fn wf(&self) -> bool {
        &&& self.spec_state() is Created ==> self.spec_pid() is None
        &&& self.spec_state() is Running ==> self.spec_pid() is Some
    }

    /// Construct the workload handle and a fresh record around it, in
    /// `Created` state with the process-id slot empty.  Fails only when
    /// the handle's own constructor fails, in which case the error is
    /// passed through and nothing is built.
    pub fn new(id: String, cfg: InstanceConfig) -> (r: Result<Self, Error>)
        ensures
            r matches Ok(d) ==> d.wf() && d.spec_state() is Created && d.spec_pid() is None
                && d.spec_config() == cfg,
    {
        match T::new(id, &cfg) {
            Ok(instance) => Ok(InstanceData { instance, cfg, pid: None, state: TaskState::Created }),
            Err(e) => Err(e),
        }
    }

    /// The recorded process id: empty before the workload starts, stable
    /// forever after.
    pub fn pid(&self) -> (r: Option<u32>)
        ensures
            r == self.spec_pid(),
    {
        self.pid
    }

    /// The immutable configuration snapshot.
    pub fn config(&self) -> (r: &InstanceConfig)
        ensures
            *r == self.spec_config(),
    {
        &self.cfg
    }

    /// Start the workload.  Valid only from `Created`; otherwise the call
    /// is rejected with `InvalidState` and nothing changes.  On success
    /// the returned process id is recorded in the write-once slot and the
    /// record becomes `Running`; on failure the record becomes `Stopped`,
    /// the slot stays empty, and the handle's error is passed through.  A
    /// failed attempt is not retryable: the state is no longer `Created`.
    pub fn start(&mut self) -> (r: Result<u32, Error>)
        requires
            old(self).wf(),
        ensures
            final(self).wf(),
            final(self).spec_config() == old(self).spec_config(),
            !start_allowed(old(self).spec_state()) ==> (r matches Err(e) && e is InvalidState
                && *final(self) == *old(self)),
            start_allowed(old(self).spec_state()) ==> match r {
                Ok(p) => final(self).spec_state() is Running && final(self).spec_pid() == Some(p),
                Err(_) => final(self).spec_state() is Stopped && final(self).spec_pid() is None,
            },
    {
        if !(self.state == TaskState::Created) {
            return Err(Error::InvalidState("task was already started".to_owned()));
        }

        let res = self.instance.start();
        match res {
            Ok(p) => {
                self.pid = Some(p);
                self.state = TaskState::Running;
                Ok(p)
            }
            Err(e) => {
                self.state = TaskState::Stopped;
                Err(e)
            }
        }
    }

    /// Deliver a signal to the workload.  Valid only while `Running`;
    /// otherwise the call is rejected with `InvalidState` and nothing
    /// changes.  The delegated kill does not itself change the lifecycle
    /// state: the workload's own exit, observed later through `wait`,
    /// performs the terminal transition.
    pub fn kill(&mut self, signal: u32) -> (r: Result<(), Error>)
        requires
            old(self).wf(),
        ensures
            final(self).wf(),
            final(self).spec_state() == old(self).spec_state(),
            final(self).spec_pid() == old(self).spec_pid(),
            final(self).spec_config() == old(self).spec_config(),
            !kill_allowed(old(self).spec_state()) ==> (r matches Err(e) && e is InvalidState
                && *final(self) == *old(self)),
    {
        if !(self.state == TaskState::Running) {
            return Err(Error::InvalidState("task is not running".to_owned()));
        }

        self.instance.kill(signal)
    }

    /// Tear the workload down.  Valid from any non-`Running`,
    /// non-`Deleted` state; otherwise the call is rejected with
    /// `InvalidState` and nothing changes.  On success the record becomes
    /// `Deleted`; on failure it is rolled back to `Stopped` so the caller
    /// may retry, and the handle's error is passed through.
    pub fn delete(&mut self) -> (r: Result<(), Error>)
        requires
            old(self).wf(),
        ensures
            final(self).wf(),
            final(self).spec_pid() == old(self).spec_pid(),
            final(self).spec_config() == old(self).spec_config(),
            !delete_allowed(old(self).spec_state()) ==> (r matches Err(e) && e is InvalidState
                && *final(self) == *old(self)),
            delete_allowed(old(self).spec_state()) ==> match r {
                Ok(u) => final(self).spec_state() is Deleted,
                Err(_) => final(self).spec_state() is Stopped,
            },
    {
        if self.state == TaskState::Running || self.state == TaskState::Deleted {
            return Err(Error::InvalidState("task cannot be deleted in its current state".to_owned()));
        }

        let res = self.instance.delete();
        match res {
            Ok(u) => {
                self.state = TaskState::Deleted;
                Ok(u)
            }
            Err(e) => {
                self.state = TaskState::Stopped;
                Err(e)
            }
        }
    }

    /// Block until the workload exits, then record the terminal `Exited`
    /// state and return the exit code and exit time.  No state is
    /// validated first: exit is a fact about the external process and
    /// cannot be rejected by policy, so the terminal write is an
    /// unconditional overwrite.
    pub fn wait(&mut self) -> (r: (u32, Timestamp))
        ensures
            final(self).wf(),
            final(self).spec_state() is Exited,
            final(self).spec_pid() == old(self).spec_pid(),
            final(self).spec_config() == old(self).spec_config(),
    {
        let res = self.instance.wait();
        self.state = TaskState::Exited;
        res
    }

    /// Same contract as `wait`, but bounded by `timeout_ms` milliseconds
    /// (`Some(0)` is a non-blocking poll for "has it exited yet").  When
    /// the bound elapses before exit, nothing is returned and the
    /// lifecycle state is left unchanged.
    pub fn wait_timeout(&mut self, timeout_ms: Option<u64>) -> (r: Option<(u32, Timestamp)>)
        requires
            old(self).wf(),
        ensures
            final(self).wf(),
            final(self).spec_pid() == old(self).spec_pid(),
            final(self).spec_config() == old(self).spec_config(),
            r is None ==> final(self).spec_state() == old(self).spec_state(),
            r is Some ==> final(self).spec_state() is Exited,
    {
        let res = self.instance.wait_timeout(timeout_ms);
        if res.is_some() {
            self.state = TaskState::Exited;
        }
        res
    }
}

} // verus!
