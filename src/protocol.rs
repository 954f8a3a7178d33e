//! The records that travel between dispatcher and workers.

use std::collections::HashMap;
use vstd::prelude::*;

use crate::clock::{unix_now, TIMESTAMP_BOUND};
use crate::ids::fresh_id;

verus! {

/// Seconds a task may run when its submitter names no limit.
pub const DEFAULT_TIMEOUT_SECS: u64 = 600;

/// A shell command to be run on some worker.
#[derive(Debug)]
pub struct Task {
    pub id: String,
    pub command: String,
    pub inputs: Vec<String>,
    pub outputs: Vec<String>,
    pub timeout: u64,
    pub env: HashMap<String, String>,
    pub created_at: i64,
}

/// What a [`Task`] holds, as mathematical values.
pub struct TaskView {
    pub id: Seq<char>,
    pub command: Seq<char>,
    pub inputs: Seq<String>,
    pub outputs: Seq<String>,
    pub timeout: u64,
    pub env: Map<String, String>,
    pub created_at: i64,
}

impl View for Task {
    type V = TaskView;

    open spec fn view(&self) -> TaskView {
        TaskView {
            id: self.id@,
            command: self.command@,
            inputs: self.inputs@,
            outputs: self.outputs@,
            timeout: self.timeout,
            env: self.env@,
            created_at: self.created_at,
        }
    }
}

/// A list of strings copied element by element keeps every element.
fn clone_strings(v: &Vec<String>) -> (r: Vec<String>)
    ensures
        r@ == v@,
{
    let r = v.clone();
    assert(r@ =~= v@);
    r
}

impl Clone for Task {
    fn clone(&self) -> (r: Self)
        ensures
            r@ == self@,
    {
        Task {
            id: self.id.clone(),
            command: self.command.clone(),
            inputs: clone_strings(&self.inputs),
            outputs: clone_strings(&self.outputs),
            timeout: self.timeout,
            env: self.env.clone(),
            created_at: self.created_at,
        }
    }
}

impl Task {
    /// A new task for `command`, with a fresh id, no inputs or outputs, an
    /// empty environment, the default timeout and the current time.
    pub fn new(command: String) -> (r: Task)
        ensures
            r@.command == command@,
            r@.inputs.len() == 0,
            r@.outputs.len() == 0,
            r@.timeout == DEFAULT_TIMEOUT_SECS,
            r@.env == Map::<String, String>::empty(),
            0 <= r@.created_at < TIMESTAMP_BOUND,
    {
        Task {
            id: fresh_id(),
            command,
            inputs: Vec::new(),
            outputs: Vec::new(),
            timeout: DEFAULT_TIMEOUT_SECS,
            env: HashMap::new(),
            created_at: unix_now(),
        }
    }
}

/// Where a task stands.
#[derive(Debug, Clone, Copy, PartialEq, Eq, Structural)]
pub enum TaskStatus {
    Pending,
    Running,
    Completed,
    Failed,
    Cancelled,
    TimedOut,
}

/// The final record of one run of a task.
#[derive(Debug)]
pub struct TaskResult {
    pub task_id: String,
    pub worker_id: String,
    pub status: TaskStatus,
    pub stdout: String,
    pub stderr: String,
    pub exit_code: Option<i32>,
    pub duration_ms: u64,
    pub completed_at: i64,
}

/// What a [`TaskResult`] holds, as mathematical values.
pub struct TaskResultView {
    pub task_id: Seq<char>,
    pub worker_id: Seq<char>,
    pub status: TaskStatus,
    pub stdout: Seq<char>,
    pub stderr: Seq<char>,
    pub exit_code: Option<i32>,
    pub duration_ms: u64,
    pub completed_at: i64,
}

impl View for TaskResult {
    type V = TaskResultView;

    open spec fn view(&self) -> TaskResultView {
        TaskResultView {
            task_id: self.task_id@,
            worker_id: self.worker_id@,
            status: self.status,
            stdout: self.stdout@,
            stderr: self.stderr@,
            exit_code: self.exit_code,
            duration_ms: self.duration_ms,
            completed_at: self.completed_at,
        }
    }
}

impl Clone for TaskResult {
    fn clone(&self) -> (r: Self)
        ensures
            r@ == self@,
    {
        TaskResult {
            task_id: self.task_id.clone(),
            worker_id: self.worker_id.clone(),
            status: self.status,
            stdout: self.stdout.clone(),
            stderr: self.stderr.clone(),
            exit_code: self.exit_code,
            duration_ms: self.duration_ms,
            completed_at: self.completed_at,
        }
    }
}

/// A worker as the dispatcher knows it.
#[derive(Debug)]
pub struct WorkerInfo {
    pub id: String,
    pub name: String,
    pub address: String,
    pub port: u16,
    pub max_jobs: usize,
    pub current_jobs: usize,
    pub allow_shell: bool,
    pub last_heartbeat: i64,
    pub platform: String,
}

/// What a [`WorkerInfo`] holds, as mathematical values.
pub struct WorkerInfoView {
    pub id: Seq<char>,
    pub name: Seq<char>,
    pub address: Seq<char>,
    pub port: u16,
    pub max_jobs: usize,
    pub current_jobs: usize,
    pub allow_shell: bool,
    pub last_heartbeat: i64,
    pub platform: Seq<char>,
}

impl WorkerInfoView {
    /// A worker is idle while it runs fewer jobs than it accepts.
    pub open spec fn is_idle(self) -> bool {
        self.current_jobs < self.max_jobs
    }

    /// The same worker with another load.
    pub open spec fn with_jobs(self, jobs: usize) -> WorkerInfoView {
        WorkerInfoView { current_jobs: jobs, ..self }
    }

    /// The same worker heard from at `t`.
    pub open spec fn with_heartbeat(self, t: i64) -> WorkerInfoView {
        WorkerInfoView { last_heartbeat: t, ..self }
    }
}

impl View for WorkerInfo {
    type V = WorkerInfoView;

    open spec fn view(&self) -> WorkerInfoView {
        WorkerInfoView {
            id: self.id@,
            name: self.name@,
            address: self.address@,
            port: self.port,
            max_jobs: self.max_jobs,
            current_jobs: self.current_jobs,
            allow_shell: self.allow_shell,
            last_heartbeat: self.last_heartbeat,
            platform: self.platform@,
        }
    }
}

impl Clone for WorkerInfo {
    fn clone(&self) -> (r: Self)
        ensures
            r@ == self@,
    {
        WorkerInfo {
            id: self.id.clone(),
            name: self.name.clone(),
            address: self.address.clone(),
            port: self.port,
            max_jobs: self.max_jobs,
            current_jobs: self.current_jobs,
            allow_shell: self.allow_shell,
            last_heartbeat: self.last_heartbeat,
            platform: self.platform.clone(),
        }
    }
}

impl WorkerInfo {
    /// A worker with a fresh id, no running jobs, shell execution allowed, and
    /// its heartbeat set to now. `platform` is the operating system tag of the
    /// machine it runs on.
    pub fn new(name: String, address: String, port: u16, max_jobs: usize, platform: String) -> (r:
        WorkerInfo)
        ensures
            r@.name == name@,
            r@.address == address@,
            r@.port == port,
            r@.max_jobs == max_jobs,
            r@.current_jobs == 0,
            r@.allow_shell,
            r@.platform == platform@,
            0 <= r@.last_heartbeat < TIMESTAMP_BOUND,
    {
        WorkerInfo {
            id: fresh_id(),
            name,
            address,
            port,
            max_jobs,
            current_jobs: 0,
            allow_shell: true,
            last_heartbeat: unix_now(),
            platform,
        }
    }

    /// Whether the worker has room for another job.
    pub fn is_idle(&self) -> (r: bool)
        ensures
            r == self@.is_idle(),
    {
        self.current_jobs < self.max_jobs
    }
}

/// A worker that runs nothing and accepts at least one job is idle.
pub proof fn lemma_unloaded_worker_is_idle(w: WorkerInfoView)
    requires
        w.current_jobs == 0,
        w.max_jobs >= 1,
    ensures
        w.is_idle(),
{
}

/// One message of the wire protocol.
///
/// A progress fraction travels as the bit pattern of a single-precision
/// float (`f32::to_bits`), which this library carries without reading.
#[derive(Debug)]
pub enum Message {
    /// A worker announces itself to the dispatcher.
    WorkerAnnounce(WorkerInfo),
    /// The dispatcher hands a task to a worker.
    AssignTask(Task),
    /// A worker reports how far a task has come.
    TaskProgress { task_id: String, progress_bits: u32 },
    /// A worker reports a finished task.
    TaskCompleted(TaskResult),
    /// A worker says it is alive.
    Heartbeat { worker_id: String, timestamp: i64 },
    /// The dispatcher withdraws a task.
    CancelTask { task_id: String },
    /// Either side acknowledges a message.
    Ack { message_id: String },
}

} // verus!
