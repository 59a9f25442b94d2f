//! Plain request and response values exchanged with the front end.

use vstd::prelude::*;

verus! {

/// The answer to a successful session start.
#[derive(Debug, Clone, PartialEq, Eq)]
pub struct InitResponse {
    pub success: bool,
}

/// The task that a chat message started.
#[derive(Debug, Clone, PartialEq, Eq)]
pub struct ChatResponse {
    pub task_id: String,
}

/// A memory entry to delete.
#[derive(Debug, Clone, PartialEq, Eq)]
pub struct DeleteMemoryRequest {
    pub id: String,
}

/// Which tasks to list: those of one conversation, or all.
#[derive(Debug, Clone, PartialEq, Eq)]
pub struct ListTasksRequest {
    pub context_id: Option<String>,
}

/// A task to look up.
#[derive(Debug, Clone, PartialEq, Eq)]
pub struct GetTaskRequest {
    pub task_id: String,
}

} // verus!
