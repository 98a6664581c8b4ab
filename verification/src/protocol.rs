use vstd::prelude::*;

use crate::timestamp::Timestamp;

verus! {

/// The reported status of a task, derived purely from observed data:
/// `Created` if no process id was ever recorded, `Running` if one exists
/// but no exit has been observed, `Stopped` once an exit is observed.
#[derive(Clone, Copy, Debug, PartialEq, Eq, Structural)]
pub enum Status {
    Created,
    Running,
    Stopped,
}

/// One requested root-filesystem mount.  Applying the mount is the
/// embedding program's on-disk work; the service only carries the list
/// through into the creation event.
#[derive(Debug, Clone, PartialEq)]
pub struct Mount {
    pub mount_type: String,
    pub source: String,
    pub target: String,
    pub options: Vec<String>,
}

#[derive(Debug, Clone, PartialEq)]
pub struct CreateTaskRequest {
    pub id: String,
    pub bundle: String,
    pub rootfs: Vec<Mount>,
    pub terminal: bool,
    pub checkpoint: String,
    pub parent_checkpoint: String,
    pub stdin: String,
    pub stdout: String,
    pub stderr: String,
}

#[derive(Debug, Clone, PartialEq)]
pub struct CreateTaskResponse {
    /// The shim's own process id: the workload has not started yet.
    pub pid: u32,
}

#[derive(Debug, Clone, PartialEq)]
pub struct StartRequest {
    pub id: String,
    pub exec_id: String,
}

#[derive(Debug, Clone, PartialEq)]
pub struct StartResponse {
    pub pid: u32,
}

#[derive(Debug, Clone, PartialEq)]
pub struct KillRequest {
    pub id: String,
    pub exec_id: String,
    pub signal: u32,
}

#[derive(Debug, Clone, PartialEq)]
pub struct DeleteRequest {
    pub id: String,
    pub exec_id: String,
}

#[derive(Debug, Clone, PartialEq)]
pub struct DeleteResponse {
    pub pid: u32,
    pub exit_status: u32,
    pub exited_at: Option<Timestamp>,
}

#[derive(Debug, Clone, PartialEq)]
pub struct WaitRequest {
    pub id: String,
    pub exec_id: String,
}

#[derive(Debug, Clone, PartialEq)]
pub struct WaitResponse {
    pub exit_status: u32,
    pub exited_at: Timestamp,
}

#[derive(Debug, Clone, PartialEq)]
pub struct StateRequest {
    pub id: String,
    pub exec_id: String,
}

#[derive(Debug, Clone, PartialEq)]
pub struct StateResponse {
    pub bundle: String,
    pub stdin: String,
    pub stdout: String,
    pub stderr: String,
    pub pid: u32,
    pub exit_status: u32,
    pub exited_at: Option<Timestamp>,
    pub status: Status,
}

#[derive(Debug, Clone, PartialEq)]
pub struct StatsRequest {
    pub id: String,
}

#[derive(Debug, Clone, PartialEq)]
pub struct ConnectRequest {
    pub id: String,
}

#[derive(Debug, Clone, PartialEq)]
pub struct ConnectResponse {
    pub shim_pid: u32,
    pub task_pid: u32,
}

} // verus!
