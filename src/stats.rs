//! Aggregate counts of tasks, as storage reports them.
use vstd::prelude::*;

verus! {

/// Counts of all tasks, in total and by status.
#[derive(Debug, Clone, Copy, PartialEq, Eq)]
pub struct TaskStats {
    pub total: i64,
    pub new: i64,
    pub in_progress: i64,
    pub completed: i64,
    pub cancelled: i64,
}

/// Counts of the tasks of one assignee; pending ones are new or in progress.
#[derive(Debug, Clone)]
pub struct UserStats {
    pub assignee: String,
    pub total_tasks: i64,
    pub completed_tasks: i64,
    pub pending_tasks: i64,
}

} // verus!
