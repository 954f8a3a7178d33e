//! How a worker reacts to each message the dispatcher sends it, and how it
//! records a finished run. A worker runs at most one task at a time in its
//! current-task slot.

use vstd::prelude::*;

use crate::executor::ExecutionResult;
use crate::protocol::{Message, Task, TaskResult, TaskResultView};
use crate::state::{WorkerState, WorkerStateView};
use crate::text::str_eq;

verus! {

/// What the worker is to do after a message.
#[derive(Debug)]
pub enum WorkerAction {
    /// Run the carried task, which now fills the current-task slot.
    Execute(Task),
    /// Nothing to run.
    Nothing,
    /// The message is one a worker never expects; it was ignored.
    Unexpected,
}

/// The worker's state after a cancellation of `task_id`: the slot is cleared
/// if it holds that task, and left alone otherwise.
pub open spec fn after_cancel(s: WorkerStateView, task_id: Seq<char>) -> WorkerStateView {
    match s.current_task {
        Some(t) => if t.id == task_id {
            WorkerStateView { current_task: None, ..s }
        } else {
            s
        },
        None => s,
    }
}

/// Applies one message from the dispatcher to the worker's state.
///
/// An assignment fills the current-task slot and asks for the task to be
/// run. A cancellation clears the slot when it names the task in it (a
/// process already started is not stopped). Anything else is unexpected.
pub fn handle_worker_message(msg: Message, state: &mut WorkerState) -> (r: WorkerAction)
    ensures
        match msg {
            Message::AssignTask(t) => {
                &&& r matches WorkerAction::Execute(x) && x@ == t@
                &&& final(state)@ == (WorkerStateView { current_task: Some(t@), ..old(state)@ })
            },
            Message::CancelTask { task_id } => {
                &&& r is Nothing
                &&& final(state)@ == after_cancel(old(state)@, task_id@)
            },
            _ => {
                &&& r is Unexpected
                &&& final(state)@ == old(state)@
            },
        },
{
    match msg {
        Message::AssignTask(task) => {
            let slot = task.clone();
            state.set_current_task(Some(slot));
            WorkerAction::Execute(task)
        },
        Message::CancelTask { task_id } => {
            let current = state.get_current_task();
            match current {
                Some(t) => {
                    if str_eq(t.id.as_str(), task_id.as_str()) {
                        state.set_current_task(None);
                    }
                },
                None => {},
            }
            WorkerAction::Nothing
        },
        _ => WorkerAction::Unexpected,
    }
}

/// The report of a finished run, as sent to the dispatcher.
pub open spec fn report_of(
    worker_id: Seq<char>,
    outcome: ExecutionResult,
    completed_at: i64,
) -> TaskResultView {
    TaskResultView {
        task_id: outcome.task_id@,
        worker_id,
        status: outcome.status,
        stdout: outcome.stdout@,
        stderr: outcome.stderr@,
        exit_code: outcome.exit_code,
        duration_ms: outcome.duration_ms,
        completed_at,
    }
}

/// Ends the current run with `outcome`, observed at `completed_at`: the slot
/// is cleared, the result is recorded, and the report for the dispatcher,
/// naming the worker as `worker_id`, is returned.
pub fn finish_task(
    state: &mut WorkerState,
    worker_id: String,
    outcome: ExecutionResult,
    completed_at: i64,
) -> (r: TaskResult)
    ensures
        r@ == report_of(worker_id@, outcome, completed_at),
        final(state)@ == (WorkerStateView {
            current_task: None,
            completed: old(state)@.completed.push(r@),
            ..old(state)@
        }),
{
    let result = TaskResult {
        task_id: outcome.task_id,
        worker_id,
        status: outcome.status,
        stdout: outcome.stdout,
        stderr: outcome.stderr,
        exit_code: outcome.exit_code,
        duration_ms: outcome.duration_ms,
        completed_at,
    };
    state.set_current_task(None);
    state.add_completed_task(result.clone());
    result
}

} // verus!
