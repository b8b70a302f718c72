use node_supervisor::errors::Error;
use node_supervisor::supervisor::{
    escalation_needed, NodeStatus, Process, ProcessOption, STOP_TIMEOUT_SECS,
};
use subprocess::ExitStatus;

fn fresh(dir: &str) -> Process {
    Process::new(ProcessOption {
        codechain_dir: dir.to_string(),
        log_file_path: "/tmp/node_supervisor_test.log".to_string(),
    })
}

#[test]
fn fresh_supervisor_is_stopped() {
    let mut p = fresh(".");
    assert_eq!(p.get_status(), NodeStatus::Stop);
    assert!(!p.is_running());
}

#[test]
fn stop_before_run_is_not_running() {
    let mut p = fresh(".");
    let r = p.stop();
    assert!(matches!(r, Err(Error::NotRunning)));
    assert_eq!(p.get_status(), NodeStatus::Stop);
}

#[test]
fn run_with_bad_env_spawns_nothing() {
    let mut p = fresh(".");
    let r = p.run("FOO".to_string(), "--port 1234".to_string());
    assert!(matches!(r, Err(Error::EnvParseError)));
    assert_eq!(p.get_status(), NodeStatus::Stop);
}

#[test]
fn run_with_bad_env_wins_over_bad_directory() {
    let mut p = fresh("/such/a/directory/does/not/exist");
    let r = p.run("JUST_A_KEY".to_string(), "".to_string());
    assert!(matches!(r, Err(Error::EnvParseError)));
    assert_eq!(p.get_status(), NodeStatus::Stop);
}

#[test]
fn run_spawn_failure_leaves_stopped() {
    let mut p = fresh("/such/a/directory/does/not/exist");
    let r = p.run("FOO=1 BAR=2".to_string(), "--port 1234".to_string());
    assert!(matches!(r, Err(Error::SubprocessError(_))));
    assert_eq!(p.get_status(), NodeStatus::Stop);
    let r = p.stop();
    assert!(matches!(r, Err(Error::NotRunning)));
}

#[test]
fn escalation_exactly_on_timeout() {
    assert!(escalation_needed(&None));
    assert!(!escalation_needed(&Some(ExitStatus::Exited(0))));
    assert!(!escalation_needed(&Some(ExitStatus::Signaled(15))));
}

#[test]
fn stop_timeout_is_ten_seconds() {
    assert_eq!(STOP_TIMEOUT_SECS, 10);
}

#[test]
fn io_error_converts_to_io_variant() {
    let e = Error::from(std::io::Error::new(std::io::ErrorKind::NotFound, "gone"));
    assert!(matches!(e, Error::IO(_)));
}

#[test]
fn popen_error_converts_to_subprocess_variant() {
    let inner = std::io::Error::new(std::io::ErrorKind::NotFound, "gone");
    let e = Error::from(subprocess::PopenError::IoError(inner));
    assert!(matches!(e, Error::SubprocessError(_)));
}
