//! The record that the durable task history keeps for each task.

use vstd::prelude::*;

verus! {

/// One task as the history stores it.
#[derive(Debug)]
pub struct StoredTask {
    pub id: String,
    pub command: String,
    pub status: String,
    pub worker_id: Option<String>,
    pub stdout: String,
    pub stderr: String,
    pub exit_code: Option<i32>,
    pub duration_ms: u64,
    pub created_at: String,
    pub completed_at: Option<String>,
}

} // verus!
