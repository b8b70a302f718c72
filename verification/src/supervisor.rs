//! The lifecycle of the supervised process pair.
//!
//! A supervisor owns either nothing (`NotStarted`) or both handles of a
//! running pipeline (`Running`): the primary program and the log-sink
//! process that duplicates its combined output into the log file.  The sum
//! type makes "both handles exist together or neither does" hold by
//! construction.  `run`, `is_running` and `stop` drive the state machine;
//! the operating-system effects are behind trusted wrappers over the
//! `subprocess` crate.

use vstd::prelude::*;

use subprocess::{Exec, ExitStatus, Popen, PopenError, Redirection};
use std::io::Error as IOError;

use crate::errors::Error;
use crate::parsing::{env_wf, parse_env, split_tokens};

verus! {

/// Declares `subprocess::Popen`, the handle to a spawned child process.
#[verifier::external_type_specification]
#[verifier::external_body]
pub struct ExPopen(Popen);

/// Declares `subprocess::ExitStatus`, the exit status a wait reports.
#[verifier::external_type_specification]
#[verifier::external_body]
pub struct ExExitStatus(ExitStatus);

/// The immutable configuration of a supervisor: where the supervised
/// program lives and where its log is captured.
pub struct ProcessOption {
    /// Working directory of the supervised program.
    pub codechain_dir: String,
    /// File path the log-sink process writes the captured output to.
    pub log_file_path: String,
}

/// What the supervisor currently owns: no process, or both handles of the
/// running pipeline together.
pub enum ProcessState {
    /// No process has been started (or the last one was stopped).
    NotStarted,
    /// A pipeline is running: the supervised program and the log sink.
    Running {
        /// Handle to the supervised program itself.
        primary: Popen,
        /// Handle to the process duplicating the output into the log file.
        log_sink: Popen,
    },
}

/// The status a `GetStatus` command reports, derived by polling; never
/// stored.
#[derive(Clone, Copy, Debug, PartialEq, Eq, Structural)]
pub enum NodeStatus {
    /// The supervised program is currently running.
    Run,
    /// No supervised program is running.
    Stop,
}

/// The supervisor of a single external node process.
pub struct Process {
    option: ProcessOption,
    state: ProcessState,
}

/// Relies on `subprocess::Exec` and `Pipeline::popen`: spawns the
/// supervised program (`cargo run -- <args>`, in working directory `dir`,
/// with the env overrides `envs` merged onto the ambient environment and
/// stdout/stderr merged into one stream) piped into `tee <log_path>`, and
/// returns one child handle per pipeline stage, in pipeline order.
#[verifier::external_body]
fn spawn_pipeline(
    dir: &str,
    log_path: &str,
    envs: &Vec<(String, String)>,
    args: &Vec<String>,
) -> (r: Result<Vec<Popen>, PopenError>)
    ensures
        r matches Ok(v) ==> v@.len() == 2,
{
    let mut exec = Exec::cmd("cargo")
        .arg("run")
        .arg("--")
        .cwd(dir)
        .stdout(Redirection::Pipe)
        .stderr(Redirection::Merge)
        .args(args);
    for (k, v) in envs.iter() {
        exec = exec.env(k, v);
    }
    (exec | Exec::cmd("tee").arg(log_path)).popen()
}

/// Relies on `Popen::poll`: a non-blocking check that returns `None` while
/// the process still runs and `Some(status)` once it has exited.
#[verifier::external_body]
fn poll_handle(p: &mut Popen) -> (r: Option<ExitStatus>) {
    p.poll()
}

/// Relies on `Popen::terminate`: sends the graceful termination signal
/// (`SIGTERM`) to the process.
#[verifier::external_body]
fn terminate_handle(p: &mut Popen) -> (r: Result<(), IOError>) {
    p.terminate()
}

/// Relies on `Popen::wait_timeout`: waits for the process for up to `secs`
/// seconds; `Ok(Some(status))` when it exited in time, `Ok(None)` exactly
/// when the timeout elapsed first.
#[verifier::external_body]
fn wait_handle_timeout(p: &mut Popen, secs: u64) -> (r: Result<Option<ExitStatus>, PopenError>) {
    p.wait_timeout(std::time::Duration::new(secs, 0))
}

/// Relies on `Popen::kill`: forcibly kills the process (`SIGKILL`).
#[verifier::external_body]
fn kill_handle(p: &mut Popen) -> (r: Result<(), IOError>) {
    p.kill()
}

/// How many seconds a stop waits for a graceful exit before it escalates.
pub const STOP_TIMEOUT_SECS: u64 = 10;

/// Whether a stop must escalate to a forced kill: exactly when the
/// graceful-termination wait returned no exit status within the timeout.
pub fn escalation_needed(wait_result: &Option<ExitStatus>) -> (r: bool)
    ensures
        r <==> wait_result is None,
{
    wait_result.is_none()
}

impl Process {
    /// Whether the supervisor holds handles to a started pipeline.  The
    /// process behind them may have exited on its own; that is only
    /// reconciled when the next command polls.
    pub closed spec fn started(self) -> bool {
        self.state is Running
    }

    /// The configuration the supervisor was constructed with.
    pub closed spec fn config(self) -> ProcessOption {
        self.option
    }

    /// A fresh supervisor: nothing started yet.
    pub fn new(option: ProcessOption) -> (r: Process)
        ensures
            !r.started(),
            r.config() == option,
    {
        Process { option, state: ProcessState::NotStarted }
    }

    /// Polls the primary handle: `true` exactly when a pipeline was started
    /// and its primary process has not yet exited.  Does not reap state: a
    /// finished pipeline stays owned until the next `run` or `stop`.
    pub fn is_running(&mut self) -> (r: bool)
        ensures
            final(self).config() == old(self).config(),
            final(self).started() == old(self).started(),
            !old(self).started() ==> *final(self) == *old(self) && !r,
            r ==> old(self).started(),
    {
        let mut state = ProcessState::NotStarted;
        core::mem::swap(&mut self.state, &mut state);
        match state {
            ProcessState::NotStarted => false,
            ProcessState::Running { mut primary, log_sink } => {
                let exited = poll_handle(&mut primary);
                self.state = ProcessState::Running { primary, log_sink };
                exited.is_none()
            },
        }
    }

    /// The status of the supervised program, derived by polling.
    pub fn get_status(&mut self) -> (r: NodeStatus)
        ensures
            final(self).config() == old(self).config(),
            final(self).started() == old(self).started(),
            !old(self).started() ==> *final(self) == *old(self) && r == NodeStatus::Stop,
            r == NodeStatus::Run ==> old(self).started(),
    {
        if self.is_running() {
            NodeStatus::Run
        } else {
            NodeStatus::Stop
        }
    }

    /// Starts the supervised pipeline.
    ///
    /// Fails with `AlreadyRunning` while the primary process still runs,
    /// and with `EnvParseError` when `env` is not whitespace-separated
    /// `KEY=VALUE` tokens — in both cases before any process is spawned.
    /// The parsed env overrides and the whitespace-split `args` tokens are
    /// handed to the spawn; a spawn failure is reported as
    /// `SubprocessError` and leaves the state as it was.
    pub fn run(&mut self, env: String, args: String) -> (r: Result<(), Error>)
        ensures
            final(self).config() == old(self).config(),
            final(self).started() <==> (r is Ok || old(self).started()),
            r is Ok ==> env_wf(env@),
            r matches Err(e) ==> (e is AlreadyRunning || e is EnvParseError
                || e is SubprocessError),
            r matches Err(e) && e is AlreadyRunning ==> old(self).started(),
            r matches Err(e) && e is EnvParseError ==> !env_wf(env@),
            r matches Err(e) && e is SubprocessError ==> env_wf(env@),
            !old(self).started() && !env_wf(env@) ==> (r matches Err(e) && e is EnvParseError
                && *final(self) == *old(self)),
            !old(self).started() && env_wf(env@) ==> (r is Ok || (r matches Err(e)
                && e is SubprocessError)),
    {
        if self.is_running() {
            return Err(Error::AlreadyRunning);
        }
        let envs = match parse_env(env.as_str()) {
            Ok(v) => v,
            Err(e) => {
                return Err(e);
            },
        };
        let args_vec = split_tokens(args.as_str());
        let mut children = match spawn_pipeline(
            self.option.codechain_dir.as_str(),
            self.option.log_file_path.as_str(),
            &envs,
            &args_vec,
        ) {
            Ok(v) => v,
            Err(e) => {
                return Err(Error::SubprocessError(e));
            },
        };
        let log_sink = children.pop().unwrap();
        let primary = children.pop().unwrap();
        self.state = ProcessState::Running { primary, log_sink };
        Ok(())
    }

    /// Stops the supervised pipeline.
    ///
    /// Fails with `NotRunning` when nothing runs.  Otherwise sends the
    /// graceful termination signal, waits up to [`STOP_TIMEOUT_SECS`]
    /// seconds, and on timeout escalates to one forced kill; success is
    /// reported either way, and the handles are released.  A failing
    /// signal or wait is reported (`IO`, `SubprocessError`) and keeps the
    /// handles.
    pub fn stop(&mut self) -> (r: Result<(), Error>)
        ensures
            final(self).config() == old(self).config(),
            r is Ok ==> old(self).started() && !final(self).started(),
            r matches Err(e) ==> (e is NotRunning || e is SubprocessError || e is IO),
            r matches Err(e) && e is NotRunning ==> final(self).started() == old(
                self,
            ).started(),
            r matches Err(e) && (e is SubprocessError || e is IO) ==> old(self).started()
                && final(self).started(),
            !old(self).started() ==> (r matches Err(e) && e is NotRunning && *final(self) == *old(
                self,
            )),
    {
        if !self.is_running() {
            return Err(Error::NotRunning);
        }
        let mut state = ProcessState::NotStarted;
        core::mem::swap(&mut self.state, &mut state);
        match state {
            ProcessState::NotStarted => {
                proof {
                    assert(false);
                }
                Err(Error::NotRunning)
            },
            ProcessState::Running { mut primary, log_sink } => {
                match terminate_handle(&mut primary) {
                    Ok(()) => {},
                    Err(e) => {
                        self.state = ProcessState::Running { primary, log_sink };
                        return Err(Error::IO(e));
                    },
                }
                let wait_result = match wait_handle_timeout(&mut primary, STOP_TIMEOUT_SECS) {
                    Ok(w) => w,
                    Err(e) => {
                        self.state = ProcessState::Running { primary, log_sink };
                        return Err(Error::SubprocessError(e));
                    },
                };
                if escalation_needed(&wait_result) {
                    match kill_handle(&mut primary) {
                        Ok(()) => {},
                        Err(e) => {
                            self.state = ProcessState::Running { primary, log_sink };
                            return Err(Error::IO(e));
                        },
                    }
                }
                Ok(())
            },
        }
    }
}

} // verus!

