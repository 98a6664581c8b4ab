use shim_tasks::error::Error;
use shim_tasks::instance::{Instance, InstanceConfig};
use shim_tasks::instance_data::InstanceData;
use shim_tasks::timestamp::Timestamp;

/// A workload that starts with pid 7, treats any signal as fatal, and
/// reports exit code 3 at a fixed time once it has been signalled.
struct FakeProc {
    exited: bool,
    kills: u32,
    deletes: u32,
}

fn fake_exit_time() -> Timestamp {
    Timestamp {
        seconds: 100,
        nanos: 5,
    }
}

impl Instance for FakeProc {
    fn new(_id: String, _cfg: &InstanceConfig) -> Result<Self, Error> {
        Ok(FakeProc {
            exited: false,
            kills: 0,
            deletes: 0,
        })
    }

    fn start(&mut self) -> Result<u32, Error> {
        Ok(7)
    }

    fn kill(&mut self, _signal: u32) -> Result<(), Error> {
        self.kills += 1;
        self.exited = true;
        Ok(())
    }

    fn delete(&mut self) -> Result<(), Error> {
        self.deletes += 1;
        Ok(())
    }

    fn wait(&mut self) -> (u32, Timestamp) {
        (3, fake_exit_time())
    }

    fn wait_timeout(&mut self, _timeout_ms: Option<u64>) -> Option<(u32, Timestamp)> {
        if self.exited {
            Some((3, fake_exit_time()))
        } else {
            None
        }
    }
}

/// A workload whose start always fails.
struct FailingStart;

impl Instance for FailingStart {
    fn new(_id: String, _cfg: &InstanceConfig) -> Result<Self, Error> {
        Ok(FailingStart)
    }

    fn start(&mut self) -> Result<u32, Error> {
        Err(Error::Other("workload failed to launch".to_string()))
    }

    fn kill(&mut self, _signal: u32) -> Result<(), Error> {
        Ok(())
    }

    fn delete(&mut self) -> Result<(), Error> {
        Ok(())
    }

    fn wait(&mut self) -> (u32, Timestamp) {
        (1, fake_exit_time())
    }

    fn wait_timeout(&mut self, _timeout_ms: Option<u64>) -> Option<(u32, Timestamp)> {
        None
    }
}

/// A workload whose first teardown fails and whose second succeeds.
struct FlakyDelete {
    delete_attempts: u32,
}

impl Instance for FlakyDelete {
    fn new(_id: String, _cfg: &InstanceConfig) -> Result<Self, Error> {
        Ok(FlakyDelete { delete_attempts: 0 })
    }

    fn start(&mut self) -> Result<u32, Error> {
        Ok(8)
    }

    fn kill(&mut self, _signal: u32) -> Result<(), Error> {
        Ok(())
    }

    fn delete(&mut self) -> Result<(), Error> {
        self.delete_attempts += 1;
        if self.delete_attempts == 1 {
            Err(Error::Other("resources still busy".to_string()))
        } else {
            Ok(())
        }
    }

    fn wait(&mut self) -> (u32, Timestamp) {
        (0, fake_exit_time())
    }

    fn wait_timeout(&mut self, _timeout_ms: Option<u64>) -> Option<(u32, Timestamp)> {
        None
    }
}

/// A workload whose constructor fails.
struct RefusedNew;

impl Instance for RefusedNew {
    fn new(_id: String, _cfg: &InstanceConfig) -> Result<Self, Error> {
        Err(Error::Other("no backend available".to_string()))
    }

    fn start(&mut self) -> Result<u32, Error> {
        Ok(1)
    }

    fn kill(&mut self, _signal: u32) -> Result<(), Error> {
        Ok(())
    }

    fn delete(&mut self) -> Result<(), Error> {
        Ok(())
    }

    fn wait(&mut self) -> (u32, Timestamp) {
        (0, fake_exit_time())
    }

    fn wait_timeout(&mut self, _timeout_ms: Option<u64>) -> Option<(u32, Timestamp)> {
        None
    }
}

fn cfg() -> InstanceConfig {
    InstanceConfig::new("ns".to_string(), "address".to_string())
}

#[test]
fn new_record_is_created_with_empty_pid() {
    let d = InstanceData::<FakeProc>::new("t1".to_string(), cfg()).unwrap();
    assert_eq!(d.pid(), None);
    assert_eq!(d.config().get_namespace().as_str(), "ns");
    assert_eq!(d.config().get_containerd_address().as_str(), "address");
    assert_eq!(d.config().get_bundle().as_str(), "");
}

#[test]
fn new_record_passes_through_constructor_failure() {
    let r = InstanceData::<RefusedNew>::new("t1".to_string(), cfg());
    assert!(matches!(r, Err(Error::Other(_))));
}

#[test]
fn start_records_pid() {
    let mut d = InstanceData::<FakeProc>::new("t1".to_string(), cfg()).unwrap();
    assert_eq!(d.start().unwrap(), 7);
    assert_eq!(d.pid(), Some(7));
}

#[test]
fn record_second_start_is_invalid_state() {
    let mut d = InstanceData::<FakeProc>::new("t1".to_string(), cfg()).unwrap();
    d.start().unwrap();
    assert!(matches!(d.start(), Err(Error::InvalidState(_))));
    assert_eq!(d.pid(), Some(7));
}

#[test]
fn failed_start_leaves_pid_unset_and_is_not_retryable() {
    let mut d = InstanceData::<FailingStart>::new("t1".to_string(), cfg()).unwrap();
    assert!(matches!(d.start(), Err(Error::Other(_))));
    assert_eq!(d.pid(), None);
    assert!(matches!(d.start(), Err(Error::InvalidState(_))));
    assert_eq!(d.pid(), None);
}

#[test]
fn record_kill_before_start_not_delegated() {
    let mut d = InstanceData::<FakeProc>::new("t1".to_string(), cfg()).unwrap();
    assert!(matches!(d.kill(9), Err(Error::InvalidState(_))));
    assert_eq!(d.instance.kills, 0);
}

#[test]
fn kill_after_start_delegates_exactly_once() {
    let mut d = InstanceData::<FakeProc>::new("t1".to_string(), cfg()).unwrap();
    d.start().unwrap();
    d.kill(15).unwrap();
    assert_eq!(d.instance.kills, 1);
}

#[test]
fn record_delete_while_running_not_delegated() {
    let mut d = InstanceData::<FakeProc>::new("t1".to_string(), cfg()).unwrap();
    d.start().unwrap();
    assert!(matches!(d.delete(), Err(Error::InvalidState(_))));
    assert_eq!(d.instance.deletes, 0);
}

#[test]
fn delete_after_failed_start_succeeds() {
    let mut d = InstanceData::<FailingStart>::new("t1".to_string(), cfg()).unwrap();
    let _ = d.start();
    assert!(d.delete().is_ok());
}

#[test]
fn delete_after_exit_succeeds() {
    let mut d = InstanceData::<FakeProc>::new("t1".to_string(), cfg()).unwrap();
    d.start().unwrap();
    d.kill(15).unwrap();
    assert_eq!(d.wait(), (3, Timestamp { seconds: 100, nanos: 5 }));
    assert!(d.delete().is_ok());
    assert_eq!(d.instance.deletes, 1);
}

#[test]
fn failed_delete_can_be_retried() {
    let mut d = InstanceData::<FlakyDelete>::new("t1".to_string(), cfg()).unwrap();
    assert!(matches!(d.delete(), Err(Error::Other(_))));
    assert!(d.delete().is_ok());
    assert_eq!(d.instance.delete_attempts, 2);
}

#[test]
fn deleted_record_rejects_a_second_delete() {
    let mut d = InstanceData::<FakeProc>::new("t1".to_string(), cfg()).unwrap();
    d.delete().unwrap();
    assert!(matches!(d.delete(), Err(Error::InvalidState(_))));
}

#[test]
fn wait_timeout_before_exit_returns_nothing_and_changes_nothing() {
    let mut d = InstanceData::<FakeProc>::new("t1".to_string(), cfg()).unwrap();
    assert_eq!(d.wait_timeout(Some(0)), None);
    // The record is still in its initial state: a start is still valid.
    assert_eq!(d.start().unwrap(), 7);
}

#[test]
fn wait_and_poll_agree_once_exited() {
    let mut d = InstanceData::<FakeProc>::new("t1".to_string(), cfg()).unwrap();
    d.start().unwrap();
    d.kill(15).unwrap();
    let polled = d.wait_timeout(Some(0)).unwrap();
    let waited = d.wait();
    assert_eq!(polled, waited);
    assert_eq!(waited, (3, Timestamp { seconds: 100, nanos: 5 }));
}
