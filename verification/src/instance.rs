use vstd::prelude::*;

use crate::error::Error;
use crate::timestamp::Timestamp;

verus! {

/// The immutable per-task configuration snapshot: the service's namespace
/// and containerd address, plus the bundle path and stdio paths supplied
/// with the create request.  Built once at create time and never changed
/// afterwards.
#[derive(Debug, Clone)]
pub struct InstanceConfig {
    namespace: String,
    containerd_address: String,
    bundle: String,
    stdin: String,
    stdout: String,
    stderr: String,
}

impl InstanceConfig {
    pub closed spec fn spec_namespace(&self) -> Seq<char> {
        self.namespace@
    }

    pub closed spec fn spec_containerd_address(&self) -> Seq<char> {
        self.containerd_address@
    }

    pub closed spec fn spec_bundle(&self) -> Seq<char> {
        self.bundle@
    }

    pub closed spec fn spec_stdin(&self) -> Seq<char> {
        self.stdin@
    }

    pub closed spec fn spec_stdout(&self) -> Seq<char> {
        self.stdout@
    }

    pub closed spec fn spec_stderr(&self) -> Seq<char> {
        self.stderr@
    }

    /// A fresh configuration for the given namespace and containerd
    /// address, with empty bundle and stdio paths.
    pub fn new(namespace: String, containerd_address: String) -> (r: InstanceConfig)
        ensures
            r.spec_namespace() == namespace@,
            r.spec_containerd_address() == containerd_address@,
            r.spec_bundle() == Seq::<char>::empty(),
            r.spec_stdin() == Seq::<char>::empty(),
            r.spec_stdout() == Seq::<char>::empty(),
            r.spec_stderr() == Seq::<char>::empty(),
    {
        InstanceConfig {
            namespace,
            containerd_address,
            bundle: String::new(),
            stdin: String::new(),
            stdout: String::new(),
            stderr: String::new(),
        }
    }

    pub fn set_bundle(&mut self, bundle: String)
        ensures
            final(self).spec_bundle() == bundle@,
            final(self).spec_namespace() == old(self).spec_namespace(),
            final(self).spec_containerd_address() == old(self).spec_containerd_address(),
            final(self).spec_stdin() == old(self).spec_stdin(),
            final(self).spec_stdout() == old(self).spec_stdout(),
            final(self).spec_stderr() == old(self).spec_stderr(),
    {
        self.bundle = bundle;
    }

    pub fn set_stdin(&mut self, stdin: String)
        ensures
            final(self).spec_stdin() == stdin@,
            final(self).spec_namespace() == old(self).spec_namespace(),
            final(self).spec_containerd_address() == old(self).spec_containerd_address(),
            final(self).spec_bundle() == old(self).spec_bundle(),
            final(self).spec_stdout() == old(self).spec_stdout(),
            final(self).spec_stderr() == old(self).spec_stderr(),
    {
        self.stdin = stdin;
    }

    pub fn set_stdout(&mut self, stdout: String)
        ensures
            final(self).spec_stdout() == stdout@,
            final(self).spec_namespace() == old(self).spec_namespace(),
            final(self).spec_containerd_address() == old(self).spec_containerd_address(),
            final(self).spec_bundle() == old(self).spec_bundle(),
            final(self).spec_stdin() == old(self).spec_stdin(),
            final(self).spec_stderr() == old(self).spec_stderr(),
    {
        self.stdout = stdout;
    }

    pub fn set_stderr(&mut self, stderr: String)
        ensures
            final(self).spec_stderr() == stderr@,
            final(self).spec_namespace() == old(self).spec_namespace(),
            final(self).spec_containerd_address() == old(self).spec_containerd_address(),
            final(self).spec_bundle() == old(self).spec_bundle(),
            final(self).spec_stdin() == old(self).spec_stdin(),
            final(self).spec_stdout() == old(self).spec_stdout(),
    {
        self.stderr = stderr;
    }

    pub fn get_namespace(&self) -> (r: &String)
        ensures
            r@ == self.spec_namespace(),
    {
        &self.namespace
    }

    pub fn get_containerd_address(&self) -> (r: &String)
        ensures
            r@ == self.spec_containerd_address(),
    {
        &self.containerd_address
    }

    pub fn get_bundle(&self) -> (r: &String)
        ensures
            r@ == self.spec_bundle(),
    {
        &self.bundle
    }

    pub fn get_stdin(&self) -> (r: &String)
        ensures
            r@ == self.spec_stdin(),
    {
        &self.stdin
    }

    pub fn get_stdout(&self) -> (r: &String)
        ensures
            r@ == self.spec_stdout(),
    {
        &self.stdout
    }

    pub fn get_stderr(&self) -> (r: &String)
        ensures
            r@ == self.spec_stderr(),
    {
        &self.stderr
    }
}

/// The pluggable workload handle: the execution backend that actually runs
/// one sandboxed process or interpreter.  Its internals are opaque to the
/// service; the record's state machine is correct whatever these methods
/// do or return.
///
/// `wait` may block for the workload's whole lifetime; `wait_timeout`
/// bounds the wait by the given number of milliseconds (`None` means
/// unbounded, `Some(0)` is a non-blocking poll) and returns `None` when
/// the bound elapses before exit.  Both report the exit code and the exit
/// time, and a well-behaved implementation reports the same pair to every
/// caller once the process has exited.
pub trait Instance: Sized {
    /// Construct the workload for the given task id and configuration.
    fn new(id: String, cfg: &InstanceConfig) -> Result<Self, Error>;

    /// Start the workload; on success return its process id.
    fn start(&mut self) -> Result<u32, Error>;

    /// Deliver the given signal to the running workload.
    fn kill(&mut self, signal: u32) -> Result<(), Error>;

    /// Tear the workload down and release its resources.
    fn delete(&mut self) -> Result<(), Error>;

    /// Block until the workload exits; return its exit code and exit time.
    fn wait(&mut self) -> (u32, Timestamp);

    /// Wait for exit for at most `timeout_ms` milliseconds.
    fn wait_timeout(&mut self, timeout_ms: Option<u64>) -> Option<(u32, Timestamp)>;
}

} // verus!
