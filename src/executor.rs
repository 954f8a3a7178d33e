//! The decisions around running one task: whether a command may run, and
//! what record a run leaves. Spawning the shell and racing it against the
//! clock happen outside this library, which hands back what it observed.

use std::path::PathBuf;
use vstd::prelude::*;
use vstd::string::*;

use crate::protocol::{Task, TaskStatus};
use crate::text::{decimal, decimal_string, has_substring, str_contains};

verus! {

#[verifier::external_type_specification]
#[verifier::external_body]
pub struct ExPathBuf(PathBuf);

/// Whether `command` holds one of the patterns that are never run: a
/// recursive delete from the root, a zero-fill with `dd`, or a fork bomb.
pub open spec fn is_dangerous(command: Seq<char>) -> bool {
    ||| has_substring(command, "rm -rf /"@)
    ||| has_substring(command, "dd if=/dev/zero"@)
    ||| has_substring(command, ":(){:|:&};:"@)
}

/// The status of a run that exited on its own: completed on exit code zero,
/// failed on any other code or when there is none.
pub open spec fn status_for_exit(exit_code: Option<i32>) -> TaskStatus {
    if exit_code == Some(0i32) {
        TaskStatus::Completed
    } else {
        TaskStatus::Failed
    }
}

/// The error text of a run cut off after `secs` seconds.
pub open spec fn timeout_message(secs: u64) -> Seq<char> {
    "Task timed out after "@ + decimal(secs as nat) + " seconds"@
}

/// Milliseconds in `secs` seconds, held at the largest `u64` where the
/// product would not fit.
pub open spec fn millis_of(secs: u64) -> u64 {
    if secs * 1000 <= u64::MAX {
        (secs * 1000) as u64
    } else {
        u64::MAX
    }
}

/// Why the executor refuses to run a task.
#[derive(Debug, Clone, Copy, PartialEq, Eq, Structural)]
pub enum ExecutorError {
    /// Shell execution is switched off for this worker.
    ShellNotAllowed,
}

/// Runs shell commands in a working directory, if shell execution is allowed.
pub struct Executor {
    workdir: PathBuf,
    allow_shell: bool,
}

impl Executor {
    /// An executor that runs commands in `workdir`, only if `allow_shell`.
    pub fn new(workdir: PathBuf, allow_shell: bool) -> (r: Executor)
        ensures
            r.allows_shell() == allow_shell,
            r.spec_workdir() == workdir,
    {
        Executor { workdir, allow_shell }
    }

    /// Whether this executor may run commands.
    pub closed spec fn allows_shell(&self) -> bool {
        self.allow_shell
    }

    /// The directory commands run in.
    pub closed spec fn spec_workdir(&self) -> PathBuf {
        self.workdir
    }

    /// The directory commands run in.
    pub fn workdir(&self) -> (r: &PathBuf)
        ensures
            *r == self.spec_workdir(),
    {
        &self.workdir
    }

    /// Whether this executor may run commands.
    pub fn allow_shell(&self) -> (r: bool)
        ensures
            r == self.allows_shell(),
    {
        self.allow_shell
    }

    /// Succeeds exactly when shell execution is allowed; a run must not start
    /// otherwise.
    pub fn check_allowed(&self) -> (r: Result<(), ExecutorError>)
        ensures
            r is Ok == self.allows_shell(),
            r matches Err(e) ==> e == ExecutorError::ShellNotAllowed,
    {
        if self.allow_shell {
            Ok(())
        } else {
            Err(ExecutorError::ShellNotAllowed)
        }
    }

    /// Whether `command` may be run: shell execution is allowed and the
    /// command holds none of the forbidden patterns.
    pub fn validate_command(&self, command: &str) -> (r: bool)
        ensures
            r == (self.allows_shell() && !is_dangerous(command@)),
    {
        if !self.allow_shell {
            return false;
        }
        if str_contains(command, "rm -rf /") {
            return false;
        }
        if str_contains(command, "dd if=/dev/zero") {
            return false;
        }
        if str_contains(command, ":(){:|:&};:") {
            return false;
        }
        true
    }
}

/// What one run of a task produced.
#[derive(Debug)]
pub struct ExecutionResult {
    pub task_id: String,
    pub status: TaskStatus,
    pub stdout: String,
    pub stderr: String,
    pub exit_code: Option<i32>,
    pub duration_ms: u64,
}

impl ExecutionResult {
    /// The record of a run of `task` whose process exited with `exit_code`
    /// after `duration_ms` milliseconds, having written `stdout` and `stderr`.
    pub fn finished(task: &Task, exit_code: Option<i32>, stdout: String, stderr: String, duration_ms: u64) -> (r: ExecutionResult)
        ensures
            r.task_id@ == task.id@,
            r.status == status_for_exit(exit_code),
            r.stdout@ == stdout@,
            r.stderr@ == stderr@,
            r.exit_code == exit_code,
            r.duration_ms == duration_ms,
    {
        let status = match exit_code {
            Some(0) => TaskStatus::Completed,
            _ => TaskStatus::Failed,
        };
        ExecutionResult {
            task_id: task.id.clone(),
            status,
            stdout,
            stderr,
            exit_code,
            duration_ms,
        }
    }

    /// The record of a run of `task` cut off by its timeout: no output, no
    /// exit code, a message naming the limit, and the limit as its duration.
    pub fn timed_out(task: &Task) -> (r: ExecutionResult)
        ensures
            r.task_id@ == task.id@,
            r.status == TaskStatus::TimedOut,
            r.stdout@.len() == 0,
            r.stderr@ == timeout_message(task.timeout),
            r.exit_code is None,
            r.duration_ms == millis_of(task.timeout),
    {
        let secs = decimal_string(task.timeout);
        let stderr = String::from_str("Task timed out after ").concat(secs.as_str()).concat(" seconds");
        let duration_ms = match task.timeout.checked_mul(1000) {
            Some(ms) => ms,
            None => u64::MAX,
        };
        ExecutionResult {
            task_id: task.id.clone(),
            status: TaskStatus::TimedOut,
            stdout: String::new(),
            stderr,
            exit_code: None,
            duration_ms,
        }
    }
}

} // verus!
