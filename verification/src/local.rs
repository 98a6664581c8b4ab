use vstd::prelude::*;

use crate::error::Error;
use crate::events::TaskEvent;
use crate::instance::{Instance, InstanceConfig};
use crate::instance_data::InstanceData;
use crate::timestamp::Timestamp;
use crate::protocol::{
    ConnectRequest, ConnectResponse, CreateTaskRequest, CreateTaskResponse, DeleteRequest,
    DeleteResponse, KillRequest, StartRequest, StartResponse, StateRequest, StateResponse,
    StatsRequest, Status, WaitRequest, WaitResponse,
};

verus! {

struct TaskEntry<T: Instance> {
    id: String,
    data: InstanceData<T>,
}

/// The task service: a registry from task id to task record, an event
/// log, and a process-wide exit flag.  Every protocol operation resolves
/// a record, delegates to it, and publishes the corresponding event.
pub struct Local<T: Instance> {
    instances: Vec<TaskEntry<T>>,
    events: Vec<TaskEvent>,
    exit_signalled: bool,
    namespace: String,
    containerd_address: String,
    shim_pid: u32,
}

impl<T: Instance> Local<T> {
    pub closed spec fn has_task(&self, id: Seq<char>) -> bool {
        exists|i: int|
            0 <= i < self.instances@.len() && self.instances@[i].id@ == id
    }

    closed spec fn task_index(&self, id: Seq<char>) -> int {
        choose|i: int|
            0 <= i < self.instances@.len() && self.instances@[i].id@ == id
    }

    /// The record registered under `id`; meaningful only when
    /// `has_task(id)` holds.
    pub closed spec fn task(&self, id: Seq<char>) -> InstanceData<T> {
        self.instances@[self.task_index(id)].data
    }

    pub closed spec fn no_tasks(&self) -> bool {
        self.instances@.len() == 0
    }

    pub closed spec fn spec_events(&self) -> Seq<TaskEvent> {
        self.events@
    }

    pub closed spec fn spec_exit_signalled(&self) -> bool {
        self.exit_signalled
    }

    pub closed spec fn spec_namespace(&self) -> Seq<char> {
        self.namespace@
    }

    pub closed spec fn spec_containerd_address(&self) -> Seq<char> {
        self.containerd_address@
    }

    pub closed spec fn spec_shim_pid(&self) -> u32 {
        self.shim_pid
    }

    /// The registry's invariant: task ids are unique, and every record
    /// satisfies its own invariant.
    pub closed spec fn wf(&self) -> bool {
        &&& forall|i: int, j: int|
            0 <= i < self.instances@.len() && 0 <= j < self.instances@.len() && i != j
                ==> self.instances@[i].id@ != self.instances@[j].id@
        &&& forall|i: int|
            0 <= i < self.instances@.len() ==> (#[trigger] self.instances@[i]).data.wf()
    }

    /// Creates a new local task service with no tasks registered, an
    /// empty event log, and the exit flag unset.  `shim_pid` is the
    /// shim's own process id, reported by `create` and `connect`.
    pub fn new(namespace: String, containerd_address: String, shim_pid: u32) -> (r: Self)
        ensures
            r.wf(),
            r.no_tasks(),
            forall|id: Seq<char>| !r.has_task(id),
            r.spec_events() == Seq::<TaskEvent>::empty(),
            !r.spec_exit_signalled(),
            r.spec_namespace() == namespace@,
            r.spec_containerd_address() == containerd_address@,
            r.spec_shim_pid() == shim_pid,
    {
        Local {
            instances: Vec::new(),
            events: Vec::new(),
            exit_signalled: false,
            namespace,
            containerd_address,
            shim_pid,
        }
    }

    /// With unique ids, the record at index `j` is exactly the record
    /// registered under its id.
    proof fn lemma_index_is_task(self, j: int)
        requires
            self.wf(),
            0 <= j < self.instances@.len(),
        ensures
            self.has_task(self.instances@[j].id@),
            self.task_index(self.instances@[j].id@) == j,
            self.task(self.instances@[j].id@) == self.instances@[j].data,
    {
        let id = self.instances@[j].id@;
        assert(self.has_task(id));
        let i = self.task_index(id);
        assert(0 <= i < self.instances@.len() && self.instances@[i].id@ == id);
        if i != j {
            assert(self.instances@[i].id@ != self.instances@[j].id@);
        }
    }

    /// Registering a fresh id at the end of the registry leaves every
    /// other id's registration and record untouched.
    proof fn lemma_push_entry(pre: Self, post: Self)
        requires
            pre.wf(),
            post.instances@.len() == pre.instances@.len() + 1,
            post.instances@ == pre.instances@.push(post.instances@[post.instances@.len() - 1]),
            !pre.has_task(post.instances@[post.instances@.len() - 1].id@),
            post.instances@[post.instances@.len() - 1].data.wf(),
        ensures
            post.wf(),
            post.has_task(post.instances@[post.instances@.len() - 1].id@),
            post.task(post.instances@[post.instances@.len() - 1].id@)
                == post.instances@[post.instances@.len() - 1].data,
            forall|o: Seq<char>|
                o != post.instances@[post.instances@.len() - 1].id@
                    ==> (post.has_task(o) <==> pre.has_task(o)),
            forall|o: Seq<char>|
                o != post.instances@[post.instances@.len() - 1].id@ && pre.has_task(o)
                    ==> post.task(o) == pre.task(o),
    {
        let n = pre.instances@.len() as int;
        let id = post.instances@[n].id@;
        assert forall|i: int| 0 <= i < n implies pre.instances@[i].id@ != id by {
            if pre.instances@[i].id@ == id {
                assert(pre.has_task(id));
            }
        }
        assert(post.wf());
        post.lemma_index_is_task(n);
        assert forall|o: Seq<char>| o != id implies (post.has_task(o) <==> pre.has_task(o)) by {
            if post.has_task(o) {
                let i = post.task_index(o);
                assert(0 <= i < post.instances@.len() && post.instances@[i].id@ == o);
                assert(i != n);
                assert(pre.instances@[i].id@ == o);
            }
            if pre.has_task(o) {
                let i = pre.task_index(o);
                assert(0 <= i < pre.instances@.len() && pre.instances@[i].id@ == o);
                assert(post.instances@[i].id@ == o);
            }
        }
        assert forall|o: Seq<char>| o != id && pre.has_task(o) implies post.task(o) == pre.task(o) by {
            let i = pre.task_index(o);
            assert(0 <= i < pre.instances@.len() && pre.instances@[i].id@ == o);
            pre.lemma_index_is_task(i);
            post.lemma_index_is_task(i);
        }
    }

    /// Updating the record at index `j` in place, keeping its id, leaves
    /// every registration and every other record untouched.
    proof fn lemma_update_entry(pre: Self, post: Self, j: int)
        requires
            pre.wf(),
            0 <= j < pre.instances@.len(),
            post.instances@.len() == pre.instances@.len(),
            post.instances@ == pre.instances@.update(j, post.instances@[j]),
            post.instances@[j].id@ == pre.instances@[j].id@,
            post.instances@[j].data.wf(),
        ensures
            post.wf(),
            post.has_task(pre.instances@[j].id@),
            post.task(pre.instances@[j].id@) == post.instances@[j].data,
            pre.task(pre.instances@[j].id@) == pre.instances@[j].data,
            forall|o: Seq<char>| post.has_task(o) <==> pre.has_task(o),
            forall|o: Seq<char>|
                o != pre.instances@[j].id@ && pre.has_task(o) ==> post.task(o) == pre.task(o),
    {
        let id = pre.instances@[j].id@;
        assert forall|i: int| 0 <= i < post.instances@.len()
            implies #[trigger] post.instances@[i].id@ == pre.instances@[i].id@ by {
        }
        assert(post.wf());
        pre.lemma_index_is_task(j);
        post.lemma_index_is_task(j);
        assert forall|o: Seq<char>| post.has_task(o) <==> pre.has_task(o) by {
            if post.has_task(o) {
                let i = post.task_index(o);
                assert(0 <= i < post.instances@.len() && post.instances@[i].id@ == o);
                assert(pre.instances@[i].id@ == o);
            }
            if pre.has_task(o) {
                let i = pre.task_index(o);
                assert(0 <= i < pre.instances@.len() && pre.instances@[i].id@ == o);
                assert(post.instances@[i].id@ == o);
            }
        }
        assert forall|o: Seq<char>| o != id && pre.has_task(o) implies post.task(o) == pre.task(o) by {
            let i = pre.task_index(o);
            assert(0 <= i < pre.instances@.len() && pre.instances@[i].id@ == o);
            assert(i != j);
            pre.lemma_index_is_task(i);
            post.lemma_index_is_task(i);
        }
    }

    /// Removing the entry at index `j` unregisters its id and leaves
    /// every other id's registration and record untouched.
    proof fn lemma_remove_entry(pre: Self, post: Self, j: int)
        requires
            pre.wf(),
            0 <= j < pre.instances@.len(),
            post.instances@ == pre.instances@.remove(j),
        ensures
            post.wf(),
            !post.has_task(pre.instances@[j].id@),
            forall|o: Seq<char>|
                o != pre.instances@[j].id@ ==> (post.has_task(o) <==> pre.has_task(o)),
            forall|o: Seq<char>|
                o != pre.instances@[j].id@ && pre.has_task(o) ==> post.task(o) == pre.task(o),
    {
        let id = pre.instances@[j].id@;
        pre.instances@.remove_ensures(j);
        assert forall|i: int, k: int|
            0 <= i < post.instances@.len() && 0 <= k < post.instances@.len() && i != k
            implies post.instances@[i].id@ != post.instances@[k].id@ by {
            let pi: int = if i < j { i } else { i + 1 };
            let pk: int = if k < j { k } else { k + 1 };
            assert(post.instances@[i] == pre.instances@[pi]);
            assert(post.instances@[k] == pre.instances@[pk]);
        }
        assert forall|i: int| 0 <= i < post.instances@.len()
            implies (#[trigger] post.instances@[i]).data.wf() by {
            let pi: int = if i < j { i } else { i + 1 };
            assert(post.instances@[i] == pre.instances@[pi]);
        }
        assert(post.wf());
        if post.has_task(id) {
            let i = post.task_index(id);
            assert(0 <= i < post.instances@.len() && post.instances@[i].id@ == id);
            let pi: int = if i < j { i } else { i + 1 };
            assert(post.instances@[i] == pre.instances@[pi]);
            assert(pi != j);
            assert(pre.instances@[pi].id@ != pre.instances@[j].id@);
        }
        assert forall|o: Seq<char>| o != id implies (post.has_task(o) <==> pre.has_task(o)) by {
            if post.has_task(o) {
                let i = post.task_index(o);
                assert(0 <= i < post.instances@.len() && post.instances@[i].id@ == o);
                let pi: int = if i < j { i } else { i + 1 };
                assert(post.instances@[i] == pre.instances@[pi]);
            }
            if pre.has_task(o) {
                let i = pre.task_index(o);
                assert(0 <= i < pre.instances@.len() && pre.instances@[i].id@ == o);
                assert(i != j);
                let qi: int = if i < j { i } else { i - 1 };
                assert(post.instances@[qi] == pre.instances@[i]);
            }
        }
        assert forall|o: Seq<char>| o != id && pre.has_task(o) implies post.task(o) == pre.task(o) by {
            let i = pre.task_index(o);
            assert(0 <= i < pre.instances@.len() && pre.instances@[i].id@ == o);
            pre.lemma_index_is_task(i);
            assert(i != j);
            let qi: int = if i < j { i } else { i - 1 };
            assert(post.instances@[qi] == pre.instances@[i]);
            post.lemma_index_is_task(qi);
        }
    }

    /// The index of the entry registered under `id`, if any.
    fn find_index(&self, id: &String) -> (r: Option<usize>)
        ensures
            match r {
                Some(j) => j < self.instances@.len() && self.instances@[j as int].id@ == id@,
                None => !self.has_task(id@),
            },
    {
        let n = self.instances.len();
        let mut j: usize = 0;
        while j < n
            invariant
                n == self.instances@.len(),
                j <= n,
                forall|k: int| 0 <= k < j ==> self.instances@[k].id@ != id@,
            decreases n - j,
        {
            if self.instances[j].id == *id {
                return Some(j);
            }
            j = j + 1;
        }
        None
    }

    /// Whether a record is registered under `id`.
    pub fn has_instance(&self, id: &String) -> (r: bool)
        requires
            self.wf(),
        ensures
            r == self.has_task(id@),
    {
        match self.find_index(id) {
            Some(j) => {
                proof {
                    self.lemma_index_is_task(j as int);
                }
                true
            }
            None => false,
        }
    }

    /// Shared lookup of the record registered under `id`; `NotFound` if
    /// the id is unknown.
    pub fn get_instance(&self, id: &String) -> (r: Result<&InstanceData<T>, Error>)
        requires
            self.wf(),
        ensures
            match r {
                Ok(d) => self.has_task(id@) && *d == self.task(id@),
                Err(e) => !self.has_task(id@) && e is NotFound,
            },
    {
        match self.find_index(id) {
            Some(j) => {
                proof {
                    self.lemma_index_is_task(j as int);
                }
                Ok(&self.instances[j].data)
            }
            None => Err(Error::NotFound(id.clone())),
        }
    }

    /// Whether the registry currently holds no tasks.
    pub fn is_empty(&self) -> (r: bool)
        ensures
            r == self.no_tasks(),
    {
        self.instances.len() == 0
    }

    /// A fresh configuration carrying the service's namespace and
    /// containerd address, ready to take the per-task paths.
    pub fn instance_config(&self) -> (r: InstanceConfig)
        ensures
            r.spec_namespace() == self.spec_namespace(),
            r.spec_containerd_address() == self.spec_containerd_address(),
            r.spec_bundle() == Seq::<char>::empty(),
            r.spec_stdin() == Seq::<char>::empty(),
            r.spec_stdout() == Seq::<char>::empty(),
            r.spec_stderr() == Seq::<char>::empty(),
    {
        InstanceConfig::new(self.namespace.clone(), self.containerd_address.clone())
    }

    /// The parts of the service that no task operation ever changes.
    pub open spec fn same_service_identity(pre: Self, post: Self) -> bool {
        &&& post.spec_namespace() == pre.spec_namespace()
        &&& post.spec_containerd_address() == pre.spec_containerd_address()
        &&& post.spec_shim_pid() == pre.spec_shim_pid()
    }

    /// Create a task record and register it.
    ///
    /// Checkpoint/restore requests and terminal requests are rejected
    /// outright, then duplicate ids, all before anything is mutated.  On
    /// success the new record is registered in `Created` state under the
    /// request's id, carrying a configuration built from the service's
    /// namespace and containerd address plus the request's bundle and
    /// stdio paths; a creation event is published, and the reported
    /// process id is the shim's own (the workload has not started yet).
    /// A failure of the workload handle's constructor is passed through
    /// and leaves the service unchanged.
    ///
    /// The caller is responsible for the on-disk work around this call:
    /// loading and canonicalizing the runtime specification, materializing
    /// the root filesystem, applying the requested mounts, and running the
    /// specification's prestart hooks once the record exists.
    pub fn task_create(&mut self, req: CreateTaskRequest) -> (r: Result<CreateTaskResponse, Error>)
        requires
            old(self).wf(),
        ensures
            final(self).wf(),
            Self::same_service_identity(*old(self), *final(self)),
            final(self).spec_exit_signalled() == old(self).spec_exit_signalled(),
            req.checkpoint@.len() > 0 || req.parent_checkpoint@.len() > 0 ==> (r matches Err(e)
                && e is Unimplemented && *final(self) == *old(self)),
            req.checkpoint@.len() == 0 && req.parent_checkpoint@.len() == 0 && req.terminal
                ==> (r matches Err(e) && e is InvalidArgument && *final(self) == *old(self)),
            req.checkpoint@.len() == 0 && req.parent_checkpoint@.len() == 0 && !req.terminal
                && old(self).has_task(req.id@) ==> (r matches Err(e) && e is AlreadyExists
                && *final(self) == *old(self)),
            req.checkpoint@.len() == 0 && req.parent_checkpoint@.len() == 0 && !req.terminal
                && !old(self).has_task(req.id@) && r is Err ==> *final(self) == *old(self),
            r matches Ok(resp) ==> ({
                &&& req.checkpoint@.len() == 0 && req.parent_checkpoint@.len() == 0
                &&& !req.terminal
                &&& !old(self).has_task(req.id@)
                &&& resp.pid == old(self).spec_shim_pid()
                &&& final(self).has_task(req.id@)
                &&& !final(self).no_tasks()
                &&& final(self).task(req.id@).spec_state() is Created
                &&& final(self).task(req.id@).spec_pid() is None
                &&& final(self).task(req.id@).spec_config().spec_namespace()
                    == old(self).spec_namespace()
                &&& final(self).task(req.id@).spec_config().spec_containerd_address()
                    == old(self).spec_containerd_address()
                &&& final(self).task(req.id@).spec_config().spec_bundle() == req.bundle@
                &&& final(self).task(req.id@).spec_config().spec_stdin() == req.stdin@
                &&& final(self).task(req.id@).spec_config().spec_stdout() == req.stdout@
                &&& final(self).task(req.id@).spec_config().spec_stderr() == req.stderr@
                &&& forall|o: Seq<char>|
                    o != req.id@ ==> (final(self).has_task(o) <==> old(self).has_task(o))
                &&& forall|o: Seq<char>|
                    o != req.id@ && old(self).has_task(o)
                        ==> final(self).task(o) == old(self).task(o)
                &&& final(self).spec_events() == old(self).spec_events().push(
                    (TaskEvent::Create {
                        container_id: req.id,
                        bundle: req.bundle,
                        rootfs: req.rootfs,
                        stdin: req.stdin,
                        stdout: req.stdout,
                        stderr: req.stderr,
                    }),
                )
            }),
    {
        if !req.checkpoint.as_str().is_empty() || !req.parent_checkpoint.as_str().is_empty() {
            return Err(Error::Unimplemented("checkpoint is not supported".to_owned()));
        }

        if req.terminal {
            return Err(Error::InvalidArgument("terminal is not supported".to_owned()));
        }

        if self.has_instance(&req.id) {
            return Err(Error::AlreadyExists(req.id));
        }

        let mut cfg = self.instance_config();
        cfg.set_bundle(req.bundle.clone());
        cfg.set_stdin(req.stdin.clone());
        cfg.set_stdout(req.stdout.clone());
        cfg.set_stderr(req.stderr.clone());

        let data = match InstanceData::new(req.id.clone(), cfg) {
            Ok(d) => d,
            Err(e) => {
                return Err(e);
            }
        };

        let ghost pre = *self;
        self.instances.push(TaskEntry { id: req.id.clone(), data });
        proof {
            Self::lemma_push_entry(pre, *self);
        }

        self.events.push(TaskEvent::Create {
            container_id: req.id,
            bundle: req.bundle,
            rootfs: req.rootfs,
            stdin: req.stdin,
            stdout: req.stdout,
            stderr: req.stderr,
        });

        Ok(CreateTaskResponse { pid: self.shim_pid })
    }

    /// Start the task registered under the request's id.
    ///
    /// Exec requests are rejected outright.  On success the record is
    /// `Running`, the returned process id is recorded in its write-once
    /// slot, and a start event is published; the embedding program then
    /// calls `watch_exit` for the same id from its exit watcher, so the
    /// exit is observed and reported without blocking other requests.
    /// On failure nothing is published: a record that was not `Created`
    /// is rejected unchanged with `InvalidState`, and a workload start
    /// failure leaves the record `Stopped` with the slot still empty.
    pub fn task_start(&mut self, req: StartRequest) -> (r: Result<StartResponse, Error>)
        requires
            old(self).wf(),
        ensures
            final(self).wf(),
            Self::same_service_identity(*old(self), *final(self)),
            final(self).spec_exit_signalled() == old(self).spec_exit_signalled(),
            forall|o: Seq<char>| final(self).has_task(o) <==> old(self).has_task(o),
            req.exec_id@.len() > 0 ==> (r matches Err(e) && e is Unimplemented
                && *final(self) == *old(self)),
            req.exec_id@.len() == 0 && !old(self).has_task(req.id@) ==> (r matches Err(e)
                && e is NotFound && *final(self) == *old(self)),
            req.exec_id@.len() == 0 && old(self).has_task(req.id@) ==> ({
                let pre_task = old(self).task(req.id@);
                &&& final(self).task(req.id@).spec_config() == pre_task.spec_config()
                &&& forall|o: Seq<char>|
                    o != req.id@ && old(self).has_task(o)
                        ==> final(self).task(o) == old(self).task(o)
                &&& match r {
                    Ok(resp) => {
                        &&& crate::task_state::start_allowed(pre_task.spec_state())
                        &&& final(self).task(req.id@).spec_state() is Running
                        &&& final(self).task(req.id@).spec_pid() == Some(resp.pid)
                        &&& final(self).spec_events() == old(self).spec_events().push(
                            (TaskEvent::Start { container_id: req.id, pid: resp.pid }),
                        )
                    },
                    Err(e) => {
                        &&& final(self).spec_events() == old(self).spec_events()
                        &&& (!crate::task_state::start_allowed(pre_task.spec_state()) ==> (
                            e is InvalidState && final(self).task(req.id@) == pre_task))
                        &&& (crate::task_state::start_allowed(pre_task.spec_state()) ==> (
                            final(self).task(req.id@).spec_state() is Stopped
                                && final(self).task(req.id@).spec_pid() is None))
                    },
                }
            }),
    {
        if !req.exec_id.as_str().is_empty() {
            return Err(Error::Unimplemented("exec is not supported".to_owned()));
        }

        let j = match self.find_index(&req.id) {
            Some(j) => j,
            None => {
                return Err(Error::NotFound(req.id));
            }
        };
        proof {
            self.lemma_index_is_task(j as int);
        }

        let ghost pre = *self;
        let res = self.instances[j].data.start();
        proof {
            Self::lemma_update_entry(pre, *self, j as int);
        }

        match res {
            Ok(pid) => {
                self.events.push(TaskEvent::Start { container_id: req.id, pid });
                Ok(StartResponse { pid })
            }
            Err(e) => Err(e),
        }
    }

    /// Deliver a signal to the task registered under the request's id.
    ///
    /// Exec requests are rejected outright.  The signal is delegated to
    /// the workload only while the record is `Running`; otherwise the
    /// call is rejected unchanged with `InvalidState`.  No event is
    /// published and the lifecycle state never changes: the workload's
    /// own exit performs the terminal transition.
    pub fn task_kill(&mut self, req: KillRequest) -> (r: Result<(), Error>)
        requires
            old(self).wf(),
        ensures
            final(self).wf(),
            Self::same_service_identity(*old(self), *final(self)),
            final(self).spec_exit_signalled() == old(self).spec_exit_signalled(),
            final(self).spec_events() == old(self).spec_events(),
            forall|o: Seq<char>| final(self).has_task(o) <==> old(self).has_task(o),
            req.exec_id@.len() > 0 ==> (r matches Err(e) && e is InvalidArgument
                && *final(self) == *old(self)),
            req.exec_id@.len() == 0 && !old(self).has_task(req.id@) ==> (r matches Err(e)
                && e is NotFound && *final(self) == *old(self)),
            req.exec_id@.len() == 0 && old(self).has_task(req.id@) ==> ({
                let pre_task = old(self).task(req.id@);
                &&& final(self).task(req.id@).spec_state() == pre_task.spec_state()
                &&& final(self).task(req.id@).spec_pid() == pre_task.spec_pid()
                &&& final(self).task(req.id@).spec_config() == pre_task.spec_config()
                &&& forall|o: Seq<char>|
                    o != req.id@ && old(self).has_task(o)
                        ==> final(self).task(o) == old(self).task(o)
                &&& (!crate::task_state::kill_allowed(pre_task.spec_state()) ==> (
                    r matches Err(e) && e is InvalidState
                        && final(self).task(req.id@) == pre_task))
                &&& (r is Ok ==> crate::task_state::kill_allowed(pre_task.spec_state()))
            }),
    {
        if !req.exec_id.as_str().is_empty() {
            return Err(Error::InvalidArgument("exec is not supported".to_owned()));
        }

        let j = match self.find_index(&req.id) {
            Some(j) => j,
            None => {
                return Err(Error::NotFound(req.id));
            }
        };
        proof {
            self.lemma_index_is_task(j as int);
        }

        let ghost pre = *self;
        let res = self.instances[j].data.kill(req.signal);
        proof {
            Self::lemma_update_entry(pre, *self, j as int);
        }
        res
    }

    /// Delete the task registered under the request's id and unregister
    /// it.
    ///
    /// Exec requests are rejected outright.  The record's teardown is
    /// valid only while the workload is not running; a failed teardown
    /// rolls the record back to `Stopped` and keeps it registered so the
    /// caller may retry.  On success a non-blocking poll picks up an
    /// already-available exit, the id is removed from the registry, and a
    /// delete event is published carrying whatever process id and exit
    /// information is known (zero-valued or absent if the task never
    /// started or never exited).
    pub fn task_delete(&mut self, req: DeleteRequest) -> (r: Result<DeleteResponse, Error>)
        requires
            old(self).wf(),
        ensures
            final(self).wf(),
            Self::same_service_identity(*old(self), *final(self)),
            final(self).spec_exit_signalled() == old(self).spec_exit_signalled(),
            req.exec_id@.len() > 0 ==> (r matches Err(e) && e is InvalidArgument
                && *final(self) == *old(self)),
            req.exec_id@.len() == 0 && !old(self).has_task(req.id@) ==> (r matches Err(e)
                && e is NotFound && *final(self) == *old(self)),
            req.exec_id@.len() == 0 && old(self).has_task(req.id@) ==> ({
                let pre_task = old(self).task(req.id@);
                &&& forall|o: Seq<char>|
                    o != req.id@ ==> (final(self).has_task(o) <==> old(self).has_task(o))
                &&& forall|o: Seq<char>|
                    o != req.id@ && old(self).has_task(o)
                        ==> final(self).task(o) == old(self).task(o)
                &&& match r {
                    Ok(resp) => {
                        &&& crate::task_state::delete_allowed(pre_task.spec_state())
                        &&& !final(self).has_task(req.id@)
                        &&& (pre_task.spec_pid() matches Some(p) ==> resp.pid == p)
                        &&& (pre_task.spec_pid() is None ==> resp.pid == 0)
                        &&& final(self).spec_events() == old(self).spec_events().push(
                            (TaskEvent::Delete {
                                container_id: req.id,
                                pid: resp.pid,
                                exit_status: resp.exit_status,
                                exited_at: resp.exited_at,
                            }),
                        )
                    },
                    Err(e) => {
                        &&& final(self).has_task(req.id@)
                        &&& final(self).spec_events() == old(self).spec_events()
                        &&& final(self).task(req.id@).spec_pid() == pre_task.spec_pid()
                        &&& final(self).task(req.id@).spec_config() == pre_task.spec_config()
                        &&& (!crate::task_state::delete_allowed(pre_task.spec_state()) ==> (
                            e is InvalidState && final(self).task(req.id@) == pre_task))
                        &&& (crate::task_state::delete_allowed(pre_task.spec_state())
                            ==> final(self).task(req.id@).spec_state() is Stopped)
                    },
                }
            }),
    {
        if !req.exec_id.as_str().is_empty() {
            return Err(Error::InvalidArgument("exec is not supported".to_owned()));
        }

        let j = match self.find_index(&req.id) {
            Some(j) => j,
            None => {
                return Err(Error::NotFound(req.id));
            }
        };
        proof {
            self.lemma_index_is_task(j as int);
        }

        let ghost pre0 = *self;
        let res = self.instances[j].data.delete();
        proof {
            Self::lemma_update_entry(pre0, *self, j as int);
        }
        match res {
            Ok(_) => {}
            Err(e) => {
                return Err(e);
            }
        }

        let pid = match self.instances[j].data.pid() {
            Some(p) => p,
            None => 0,
        };

        let ghost pre1 = *self;
        let wres = self.instances[j].data.wait_timeout(Some(0));
        proof {
            Self::lemma_update_entry(pre1, *self, j as int);
        }

        let ghost pre2 = *self;
        let _removed = self.instances.remove(j);
        proof {
            Self::lemma_remove_entry(pre2, *self, j as int);
        }

        let (exit_status, exited_at) = match wres {
            Some((c, t)) => (c, Some(t)),
            None => (0u32, None),
        };

        self.events.push(TaskEvent::Delete {
            container_id: req.id,
            pid,
            exit_status,
            exited_at,
        });

        Ok(DeleteResponse { pid, exit_status, exited_at })
    }

    /// Block until the task registered under the request's id exits, and
    /// return its exit code and exit time.
    ///
    /// Exec requests are rejected outright.  The wait is delegated to the
    /// workload without validating the lifecycle state first — exit is a
    /// fact about the external process — and once exit is reported the
    /// record is unconditionally `Exited`.  For a registered task the
    /// call always succeeds.
    pub fn task_wait(&mut self, req: WaitRequest) -> (r: Result<WaitResponse, Error>)
        requires
            old(self).wf(),
        ensures
            final(self).wf(),
            Self::same_service_identity(*old(self), *final(self)),
            final(self).spec_exit_signalled() == old(self).spec_exit_signalled(),
            final(self).spec_events() == old(self).spec_events(),
            forall|o: Seq<char>| final(self).has_task(o) <==> old(self).has_task(o),
            req.exec_id@.len() > 0 ==> (r matches Err(e) && e is InvalidArgument
                && *final(self) == *old(self)),
            req.exec_id@.len() == 0 && !old(self).has_task(req.id@) ==> (r matches Err(e)
                && e is NotFound && *final(self) == *old(self)),
            req.exec_id@.len() == 0 && old(self).has_task(req.id@) ==> ({
                let pre_task = old(self).task(req.id@);
                &&& r is Ok
                &&& final(self).task(req.id@).spec_state() is Exited
                &&& final(self).task(req.id@).spec_pid() == pre_task.spec_pid()
                &&& final(self).task(req.id@).spec_config() == pre_task.spec_config()
                &&& forall|o: Seq<char>|
                    o != req.id@ && old(self).has_task(o)
                        ==> final(self).task(o) == old(self).task(o)
            }),
    {
        if !req.exec_id.as_str().is_empty() {
            return Err(Error::InvalidArgument("exec is not supported".to_owned()));
        }

        let j = match self.find_index(&req.id) {
            Some(j) => j,
            None => {
                return Err(Error::NotFound(req.id));
            }
        };
        proof {
            self.lemma_index_is_task(j as int);
        }

        let ghost pre = *self;
        let (exit_status, exited_at) = self.instances[j].data.wait();
        proof {
            Self::lemma_update_entry(pre, *self, j as int);
        }

        Ok(WaitResponse { exit_status, exited_at })
    }

    /// Report the observed state of the task registered under the
    /// request's id.
    ///
    /// Exec requests are rejected outright.  The reported status is
    /// derived purely from observed data — the recorded process id and a
    /// non-blocking poll for exit: `Created` if no process id was ever
    /// recorded, `Running` if one exists but no exit has been observed,
    /// `Stopped` once an exit is observed — alongside the task's
    /// configured bundle and stdio paths.  For a registered task the
    /// call always succeeds.
    pub fn task_state(&mut self, req: StateRequest) -> (r: Result<StateResponse, Error>)
        requires
            old(self).wf(),
        ensures
            final(self).wf(),
            Self::same_service_identity(*old(self), *final(self)),
            final(self).spec_exit_signalled() == old(self).spec_exit_signalled(),
            final(self).spec_events() == old(self).spec_events(),
            forall|o: Seq<char>| final(self).has_task(o) <==> old(self).has_task(o),
            req.exec_id@.len() > 0 ==> (r matches Err(e) && e is InvalidArgument
                && *final(self) == *old(self)),
            req.exec_id@.len() == 0 && !old(self).has_task(req.id@) ==> (r matches Err(e)
                && e is NotFound && *final(self) == *old(self)),
            req.exec_id@.len() == 0 && old(self).has_task(req.id@) ==> ({
                let pre_task = old(self).task(req.id@);
                &&& final(self).task(req.id@).spec_pid() == pre_task.spec_pid()
                &&& final(self).task(req.id@).spec_config() == pre_task.spec_config()
                &&& forall|o: Seq<char>|
                    o != req.id@ && old(self).has_task(o)
                        ==> final(self).task(o) == old(self).task(o)
                &&& r matches Ok(resp)
                &&& (r matches Ok(resp) ==> ({
                    &&& resp.bundle@ == pre_task.spec_config().spec_bundle()
                    &&& resp.stdin@ == pre_task.spec_config().spec_stdin()
                    &&& resp.stdout@ == pre_task.spec_config().spec_stdout()
                    &&& resp.stderr@ == pre_task.spec_config().spec_stderr()
                    &&& (resp.status is Created <==> pre_task.spec_pid() is None)
                    &&& (pre_task.spec_pid() matches Some(p) ==> resp.pid == p)
                    &&& (pre_task.spec_pid() is None ==> resp.pid == 0)
                    &&& (pre_task.spec_pid() is Some ==> (resp.status is Running
                        <==> resp.exited_at is None))
                    &&& (pre_task.spec_pid() is Some ==> (resp.status is Stopped
                        <==> resp.exited_at is Some))
                    &&& (resp.exited_at is Some
                        ==> final(self).task(req.id@).spec_state() is Exited)
                    &&& (resp.exited_at is None ==> (final(self).task(req.id@).spec_state()
                        == pre_task.spec_state() && resp.exit_status == 0))
                }))
            }),
    {
        if !req.exec_id.as_str().is_empty() {
            return Err(Error::InvalidArgument("exec is not supported".to_owned()));
        }

        let j = match self.find_index(&req.id) {
            Some(j) => j,
            None => {
                return Err(Error::NotFound(req.id));
            }
        };
        proof {
            self.lemma_index_is_task(j as int);
        }

        let pid_slot = self.instances[j].data.pid();

        let ghost pre = *self;
        let wres = self.instances[j].data.wait_timeout(Some(0));
        proof {
            Self::lemma_update_entry(pre, *self, j as int);
        }

        let (exit_status, exited_at) = match wres {
            Some((c, t)) => (c, Some(t)),
            None => (0u32, None),
        };

        let status = if pid_slot.is_none() {
            Status::Created
        } else if exited_at.is_none() {
            Status::Running
        } else {
            Status::Stopped
        };

        let pid = match pid_slot {
            Some(p) => p,
            None => 0,
        };

        let cfg = self.instances[j].data.config();
        Ok(StateResponse {
            bundle: cfg.get_bundle().clone(),
            stdin: cfg.get_stdin().clone(),
            stdout: cfg.get_stdout().clone(),
            stderr: cfg.get_stderr().clone(),
            pid,
            exit_status,
            exited_at,
            status,
        })
    }

    /// Resolve the process id that an external metrics collector should
    /// be queried with.
    ///
    /// Metrics collection itself is the caller's collaborator; this
    /// operation only enforces its precondition: the task must exist and
    /// must have a recorded process id, otherwise the request is rejected
    /// with `InvalidArgument`.
    pub fn task_stats(&self, req: &StatsRequest) -> (r: Result<u32, Error>)
        requires
            self.wf(),
        ensures
            !self.has_task(req.id@) ==> (r matches Err(e) && e is NotFound),
            self.has_task(req.id@) && self.task(req.id@).spec_pid() is None ==> (r matches Err(e)
                && e is InvalidArgument),
            self.has_task(req.id@) && self.task(req.id@).spec_pid() is Some ==> (r matches Ok(q)
                && Some(q) == self.task(req.id@).spec_pid()),
    {
        let data = match self.get_instance(&req.id) {
            Ok(d) => d,
            Err(e) => {
                return Err(e);
            }
        };
        match data.pid() {
            Some(p) => Ok(p),
            None => Err(Error::InvalidArgument("task is not running".to_owned())),
        }
    }

    /// Report the shim's own process id and the task's process id (zero
    /// if the workload has not started); lifecycle state is not touched.
    pub fn connect(&self, req: &ConnectRequest) -> (r: Result<ConnectResponse, Error>)
        requires
            self.wf(),
        ensures
            !self.has_task(req.id@) ==> (r matches Err(e) && e is NotFound),
            self.has_task(req.id@) ==> (r matches Ok(resp) && ({
                &&& resp.shim_pid == self.spec_shim_pid()
                &&& (self.task(req.id@).spec_pid() matches Some(p) ==> resp.task_pid == p)
                &&& (self.task(req.id@).spec_pid() is None ==> resp.task_pid == 0)
            })),
    {
        let data = match self.get_instance(&req.id) {
            Ok(d) => d,
            Err(e) => {
                return Err(e);
            }
        };
        let task_pid = match data.pid() {
            Some(p) => p,
            None => 0,
        };
        Ok(ConnectResponse { shim_pid: self.shim_pid, task_pid })
    }

    /// Signal process-wide termination if and only if the registry is
    /// empty; with any task still registered the call is a no-op.
    /// Idempotent: once signalled, the flag stays set.
    pub fn shutdown(&mut self)
        ensures
            Self::same_service_identity(*old(self), *final(self)),
            final(self).spec_events() == old(self).spec_events(),
            final(self).no_tasks() == old(self).no_tasks(),
            forall|o: Seq<char>| final(self).has_task(o) <==> old(self).has_task(o),
            forall|o: Seq<char>|
                old(self).has_task(o) ==> final(self).task(o) == old(self).task(o),
            final(self).wf() <==> old(self).wf(),
            final(self).spec_exit_signalled() == (old(self).spec_exit_signalled()
                || old(self).no_tasks()),
    {
        if self.is_empty() {
            self.exit_signalled = true;
        }
    }

    /// The body of the per-task exit watcher that `task_start`'s caller
    /// spawns on a dedicated thread: block in the workload's wait, then
    /// publish one exit event carrying the exit code, the recorded
    /// process id and the exit time, and record the terminal `Exited`
    /// state.  `NotFound` if the task was already unregistered.
    pub fn watch_exit(&mut self, id: &String) -> (r: Result<(u32, Timestamp), Error>)
        requires
            old(self).wf(),
        ensures
            final(self).wf(),
            Self::same_service_identity(*old(self), *final(self)),
            final(self).spec_exit_signalled() == old(self).spec_exit_signalled(),
            forall|o: Seq<char>| final(self).has_task(o) <==> old(self).has_task(o),
            !old(self).has_task(id@) ==> (r matches Err(e) && e is NotFound
                && *final(self) == *old(self)),
            old(self).has_task(id@) ==> ({
                let pre_task = old(self).task(id@);
                &&& final(self).task(id@).spec_state() is Exited
                &&& final(self).task(id@).spec_pid() == pre_task.spec_pid()
                &&& final(self).task(id@).spec_config() == pre_task.spec_config()
                &&& forall|o: Seq<char>|
                    o != id@ && old(self).has_task(o)
                        ==> final(self).task(o) == old(self).task(o)
                &&& r matches Ok(ct)
                &&& (r matches Ok(ct) ==> final(self).spec_events()
                    == old(self).spec_events().push(
                    (TaskEvent::Exit {
                        container_id: *id,
                        pid: (match pre_task.spec_pid() {
                            Some(p) => p,
                            None => 0u32,
                        }),
                        exit_status: ct.0,
                        exited_at: ct.1,
                    }),
                ))
            }),
    {
        let j = match self.find_index(id) {
            Some(j) => j,
            None => {
                return Err(Error::NotFound(id.clone()));
            }
        };
        proof {
            self.lemma_index_is_task(j as int);
        }

        let ghost pre = *self;
        let (exit_status, exited_at) = self.instances[j].data.wait();
        proof {
            Self::lemma_update_entry(pre, *self, j as int);
        }

        let pid = match self.instances[j].data.pid() {
            Some(p) => p,
            None => 0,
        };

        self.events.push(TaskEvent::Exit {
            container_id: id.clone(),
            pid,
            exit_status,
            exited_at,
        });

        Ok((exit_status, exited_at))
    }

    /// Drain the event log, in emission order, for delivery to the event
    /// bus; the registry and the exit flag are untouched.
    pub fn take_events(&mut self) -> (r: Vec<TaskEvent>)
        ensures
            r@ == old(self).spec_events(),
            final(self).spec_events() == Seq::<TaskEvent>::empty(),
            Self::same_service_identity(*old(self), *final(self)),
            final(self).spec_exit_signalled() == old(self).spec_exit_signalled(),
            final(self).no_tasks() == old(self).no_tasks(),
            forall|o: Seq<char>| final(self).has_task(o) <==> old(self).has_task(o),
            forall|o: Seq<char>|
                old(self).has_task(o) ==> final(self).task(o) == old(self).task(o),
            final(self).wf() <==> old(self).wf(),
    {
        let mut drained: Vec<TaskEvent> = Vec::new();
        core::mem::swap(&mut self.events, &mut drained);
        drained
    }

    /// Whether process-wide termination has been signalled.
    pub fn exit_signalled(&self) -> (r: bool)
        ensures
            r == self.spec_exit_signalled(),
    {
        self.exit_signalled
    }
}

} // verus!
