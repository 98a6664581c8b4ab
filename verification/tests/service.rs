use shim_tasks::error::Error;
use shim_tasks::events::TaskEvent;
use shim_tasks::instance::{Instance, InstanceConfig};
use shim_tasks::local::Local;
use shim_tasks::protocol::{
    ConnectRequest, CreateTaskRequest, DeleteRequest, KillRequest, Mount, StartRequest,
    StateRequest, StatsRequest, Status, WaitRequest,
};
use shim_tasks::timestamp::Timestamp;

/// A workload that starts with pid 7 and, once signalled, exits with
/// code 0 at a fixed time.
struct SvcProc {
    exited: bool,
}

fn exit_time() -> Timestamp {
    Timestamp {
        seconds: 1700,
        nanos: 42,
    }
}

impl Instance for SvcProc {
    fn new(_id: String, _cfg: &InstanceConfig) -> Result<Self, Error> {
        Ok(SvcProc { exited: false })
    }

    fn start(&mut self) -> Result<u32, Error> {
        Ok(7)
    }

    fn kill(&mut self, _signal: u32) -> Result<(), Error> {
        self.exited = true;
        Ok(())
    }

    fn delete(&mut self) -> Result<(), Error> {
        Ok(())
    }

    fn wait(&mut self) -> (u32, Timestamp) {
        (0, exit_time())
    }

    fn wait_timeout(&mut self, _timeout_ms: Option<u64>) -> Option<(u32, Timestamp)> {
        if self.exited {
            Some((0, exit_time()))
        } else {
            None
        }
    }
}

fn service() -> Local<SvcProc> {
    Local::new("default".to_string(), "/run/containerd.sock".to_string(), 99)
}

fn create_req(id: &str) -> CreateTaskRequest {
    CreateTaskRequest {
        id: id.to_string(),
        bundle: "/bundles/t".to_string(),
        rootfs: vec![Mount {
            mount_type: "bind".to_string(),
            source: "/layers/t".to_string(),
            target: "/rootfs/t".to_string(),
            options: vec!["ro".to_string()],
        }],
        terminal: false,
        checkpoint: String::new(),
        parent_checkpoint: String::new(),
        stdin: "/io/in".to_string(),
        stdout: "/io/out".to_string(),
        stderr: "/io/err".to_string(),
    }
}

fn start_req(id: &str) -> StartRequest {
    StartRequest {
        id: id.to_string(),
        exec_id: String::new(),
    }
}

fn state_req(id: &str) -> StateRequest {
    StateRequest {
        id: id.to_string(),
        exec_id: String::new(),
    }
}

#[test]
fn create_returns_shim_pid_and_registers() {
    let mut svc = service();
    let resp = svc.task_create(create_req("t1")).unwrap();
    assert_eq!(resp.pid, 99);
    assert!(svc.has_instance(&"t1".to_string()));
    assert!(!svc.is_empty());
}

#[test]
fn create_emits_creation_event() {
    let mut svc = service();
    svc.task_create(create_req("t1")).unwrap();
    let events = svc.take_events();
    assert_eq!(
        events,
        vec![TaskEvent::Create {
            container_id: "t1".to_string(),
            bundle: "/bundles/t".to_string(),
            rootfs: vec![Mount {
                mount_type: "bind".to_string(),
                source: "/layers/t".to_string(),
                target: "/rootfs/t".to_string(),
                options: vec!["ro".to_string()],
            }],
            stdin: "/io/in".to_string(),
            stdout: "/io/out".to_string(),
            stderr: "/io/err".to_string(),
        }]
    );
}

#[test]
fn create_rejects_checkpoint() {
    let mut svc = service();
    let mut req = create_req("t1");
    req.checkpoint = "snap".to_string();
    assert!(matches!(svc.task_create(req), Err(Error::Unimplemented(_))));
    let mut req = create_req("t1");
    req.parent_checkpoint = "snap".to_string();
    assert!(matches!(svc.task_create(req), Err(Error::Unimplemented(_))));
    assert!(svc.is_empty());
}

#[test]
fn create_rejects_terminal() {
    let mut svc = service();
    let mut req = create_req("t1");
    req.terminal = true;
    assert!(matches!(
        svc.task_create(req),
        Err(Error::InvalidArgument(_))
    ));
    assert!(svc.is_empty());
}

#[test]
fn duplicate_create_is_already_exists_and_leaves_first_untouched() {
    let mut svc = service();
    svc.task_create(create_req("t1")).unwrap();
    svc.task_start(start_req("t1")).unwrap();

    let r = svc.task_create(create_req("t1"));
    assert!(matches!(r, Err(Error::AlreadyExists(_))));

    // The first record is unchanged: still registered, still running
    // with the pid its start recorded.
    let st = svc.task_state(state_req("t1")).unwrap();
    assert_eq!(st.pid, 7);
    assert_eq!(st.status, Status::Running);
}

#[test]
fn second_start_is_invalid_state() {
    let mut svc = service();
    svc.task_create(create_req("t1")).unwrap();
    assert_eq!(svc.task_start(start_req("t1")).unwrap().pid, 7);
    assert!(matches!(
        svc.task_start(start_req("t1")),
        Err(Error::InvalidState(_))
    ));
}

#[test]
fn start_rejects_exec() {
    let mut svc = service();
    svc.task_create(create_req("t1")).unwrap();
    let req = StartRequest {
        id: "t1".to_string(),
        exec_id: "e1".to_string(),
    };
    assert!(matches!(svc.task_start(req), Err(Error::Unimplemented(_))));
}

#[test]
fn operations_on_unknown_id_are_not_found() {
    let mut svc = service();
    assert!(matches!(
        svc.task_start(start_req("nope")),
        Err(Error::NotFound(_))
    ));
    assert!(matches!(
        svc.task_kill(KillRequest {
            id: "nope".to_string(),
            exec_id: String::new(),
            signal: 9,
        }),
        Err(Error::NotFound(_))
    ));
    assert!(matches!(
        svc.task_delete(DeleteRequest {
            id: "nope".to_string(),
            exec_id: String::new(),
        }),
        Err(Error::NotFound(_))
    ));
    assert!(matches!(
        svc.task_wait(WaitRequest {
            id: "nope".to_string(),
            exec_id: String::new(),
        }),
        Err(Error::NotFound(_))
    ));
    assert!(matches!(
        svc.task_state(state_req("nope")),
        Err(Error::NotFound(_))
    ));
    assert!(matches!(
        svc.task_stats(&StatsRequest {
            id: "nope".to_string(),
        }),
        Err(Error::NotFound(_))
    ));
    assert!(matches!(
        svc.connect(&ConnectRequest {
            id: "nope".to_string(),
        }),
        Err(Error::NotFound(_))
    ));
}

#[test]
fn kill_delete_wait_state_reject_exec() {
    let mut svc = service();
    svc.task_create(create_req("t1")).unwrap();
    assert!(matches!(
        svc.task_kill(KillRequest {
            id: "t1".to_string(),
            exec_id: "e1".to_string(),
            signal: 9,
        }),
        Err(Error::InvalidArgument(_))
    ));
    assert!(matches!(
        svc.task_delete(DeleteRequest {
            id: "t1".to_string(),
            exec_id: "e1".to_string(),
        }),
        Err(Error::InvalidArgument(_))
    ));
    assert!(matches!(
        svc.task_wait(WaitRequest {
            id: "t1".to_string(),
            exec_id: "e1".to_string(),
        }),
        Err(Error::InvalidArgument(_))
    ));
    assert!(matches!(
        svc.task_state(StateRequest {
            id: "t1".to_string(),
            exec_id: "e1".to_string(),
        }),
        Err(Error::InvalidArgument(_))
    ));
}

#[test]
fn kill_before_start_is_invalid_state() {
    let mut svc = service();
    svc.task_create(create_req("t1")).unwrap();
    assert!(matches!(
        svc.task_kill(KillRequest {
            id: "t1".to_string(),
            exec_id: String::new(),
            signal: 9,
        }),
        Err(Error::InvalidState(_))
    ));
}

#[test]
fn delete_while_running_is_invalid_state() {
    let mut svc = service();
    svc.task_create(create_req("t1")).unwrap();
    svc.task_start(start_req("t1")).unwrap();
    assert!(matches!(
        svc.task_delete(DeleteRequest {
            id: "t1".to_string(),
            exec_id: String::new(),
        }),
        Err(Error::InvalidState(_))
    ));
    // Still registered.
    assert!(svc.has_instance(&"t1".to_string()));
}

#[test]
fn stats_requires_a_recorded_pid() {
    let mut svc = service();
    svc.task_create(create_req("t1")).unwrap();
    assert!(matches!(
        svc.task_stats(&StatsRequest {
            id: "t1".to_string(),
        }),
        Err(Error::InvalidArgument(_))
    ));
    svc.task_start(start_req("t1")).unwrap();
    assert_eq!(
        svc.task_stats(&StatsRequest {
            id: "t1".to_string(),
        })
        .unwrap(),
        7
    );
}

#[test]
fn connect_reports_shim_and_task_pids() {
    let mut svc = service();
    svc.task_create(create_req("t1")).unwrap();
    let c = svc
        .connect(&ConnectRequest {
            id: "t1".to_string(),
        })
        .unwrap();
    assert_eq!((c.shim_pid, c.task_pid), (99, 0));
    svc.task_start(start_req("t1")).unwrap();
    let c = svc
        .connect(&ConnectRequest {
            id: "t1".to_string(),
        })
        .unwrap();
    assert_eq!((c.shim_pid, c.task_pid), (99, 7));
}

#[test]
fn state_before_exit_reports_running_without_exit_info() {
    let mut svc = service();
    svc.task_create(create_req("t1")).unwrap();

    let st = svc.task_state(state_req("t1")).unwrap();
    assert_eq!(st.status, Status::Created);
    assert_eq!(st.pid, 0);
    assert_eq!(st.exited_at, None);
    assert_eq!(st.bundle.as_str(), "/bundles/t");
    assert_eq!(st.stdin.as_str(), "/io/in");
    assert_eq!(st.stdout.as_str(), "/io/out");
    assert_eq!(st.stderr.as_str(), "/io/err");

    svc.task_start(start_req("t1")).unwrap();
    let st = svc.task_state(state_req("t1")).unwrap();
    assert_eq!(st.status, Status::Running);
    assert_eq!(st.pid, 7);
    assert_eq!(st.exit_status, 0);
    assert_eq!(st.exited_at, None);
}

#[test]
fn full_lifecycle_scenario() {
    let mut svc = service();

    svc.task_create(create_req("t1")).unwrap();

    let started = svc.task_start(start_req("t1")).unwrap();
    assert!(started.pid != 0);
    assert_eq!(started.pid, 7);

    let st = svc.task_state(state_req("t1")).unwrap();
    assert_eq!(st.status, Status::Running);
    assert_eq!(st.pid, 7);

    // The workload exits (code 0 at the fixed exit time) ...
    svc.task_kill(KillRequest {
        id: "t1".to_string(),
        exec_id: String::new(),
        signal: 15,
    })
    .unwrap();

    // ... the exit watcher observes it and publishes the exit event ...
    let observed = svc.watch_exit(&"t1".to_string()).unwrap();
    assert_eq!(observed, (0, exit_time()));

    // ... a waiter sees the same exit ...
    let w = svc
        .task_wait(WaitRequest {
            id: "t1".to_string(),
            exec_id: String::new(),
        })
        .unwrap();
    assert_eq!((w.exit_status, w.exited_at), observed);

    // ... and the delete reports the pid and the known exit.
    let d = svc
        .task_delete(DeleteRequest {
            id: "t1".to_string(),
            exec_id: String::new(),
        })
        .unwrap();
    assert_eq!(d.pid, 7);
    assert_eq!(d.exit_status, 0);
    assert_eq!(d.exited_at, Some(exit_time()));

    assert!(matches!(
        svc.task_state(state_req("t1")),
        Err(Error::NotFound(_))
    ));

    let events = svc.take_events();
    assert_eq!(events.len(), 4);
    assert!(matches!(events[0], TaskEvent::Create { .. }));
    assert_eq!(
        events[1],
        TaskEvent::Start {
            container_id: "t1".to_string(),
            pid: 7,
        }
    );
    assert_eq!(
        events[2],
        TaskEvent::Exit {
            container_id: "t1".to_string(),
            pid: 7,
            exit_status: 0,
            exited_at: exit_time(),
        }
    );
    assert_eq!(
        events[3],
        TaskEvent::Delete {
            container_id: "t1".to_string(),
            pid: 7,
            exit_status: 0,
            exited_at: Some(exit_time()),
        }
    );
}

#[test]
fn delete_of_never_started_task_reports_zero_exit_info() {
    let mut svc = service();
    svc.task_create(create_req("t1")).unwrap();
    let d = svc
        .task_delete(DeleteRequest {
            id: "t1".to_string(),
            exec_id: String::new(),
        })
        .unwrap();
    assert_eq!((d.pid, d.exit_status, d.exited_at), (0, 0, None));
    assert!(svc.is_empty());
}

#[test]
fn shutdown_is_a_no_op_while_tasks_remain() {
    let mut svc = service();
    svc.task_create(create_req("t1")).unwrap();
    svc.shutdown();
    assert!(!svc.exit_signalled());

    svc.task_delete(DeleteRequest {
        id: "t1".to_string(),
        exec_id: String::new(),
    })
    .unwrap();
    svc.shutdown();
    assert!(svc.exit_signalled());

    // Idempotent: a second shutdown leaves the flag set.
    svc.shutdown();
    assert!(svc.exit_signalled());
}

#[test]
fn take_events_drains_the_log() {
    let mut svc = service();
    svc.task_create(create_req("t1")).unwrap();
    assert_eq!(svc.take_events().len(), 1);
    assert_eq!(svc.take_events().len(), 0);
}

#[test]
fn watch_exit_on_unknown_id_is_not_found() {
    let mut svc = service();
    assert!(matches!(
        svc.watch_exit(&"nope".to_string()),
        Err(Error::NotFound(_))
    ));
}
