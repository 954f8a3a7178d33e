//! The records of the HTTP query surface, and how a submission becomes a task.

use vstd::prelude::*;

use crate::protocol::{Task, DEFAULT_TIMEOUT_SECS};

verus! {

/// A task submission.
#[derive(Debug)]
pub struct CreateTaskRequest {
    pub command: String,
    pub timeout: Option<u64>,
    pub inputs: Option<Vec<String>>,
    pub outputs: Option<Vec<String>>,
}

/// The answer to a submission.
#[derive(Debug)]
pub struct TaskResponse {
    pub id: String,
    pub command: String,
    pub status: String,
    pub created_at: String,
}

/// A login attempt.
#[derive(Debug)]
pub struct AuthRequest {
    pub username: String,
    pub password: String,
}

/// The answer to a login.
#[derive(Debug)]
pub struct AuthResponse {
    pub token: String,
    pub expires_in: i64,
}

impl CreateTaskRequest {
    /// A new task for this submission: the fields it gives override the
    /// defaults of [`Task::new`].
    pub fn into_task(self) -> (r: Task)
        ensures
            r@.command == self.command@,
            r@.inputs == match self.inputs {
                Some(v) => v@,
                None => Seq::empty(),
            },
            r@.outputs == match self.outputs {
                Some(v) => v@,
                None => Seq::empty(),
            },
            r@.timeout == match self.timeout {
                Some(t) => t,
                None => DEFAULT_TIMEOUT_SECS,
            },
            r@.env == Map::<String, String>::empty(),
    {
        let mut task = Task::new(self.command);
        if let Some(inputs) = self.inputs {
            task.inputs = inputs;
        }
        if let Some(outputs) = self.outputs {
            task.outputs = outputs;
        }
        if let Some(timeout) = self.timeout {
            task.timeout = timeout;
        }
        task
    }
}

} // verus!
