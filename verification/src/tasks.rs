//! Task view models for the MCP surface.
//!
//! The orchestration store's task rows arrive here as plain fields —
//! identifiers and timestamps already rendered as strings — and are
//! reshaped into the detail and summary forms the MCP tools answer with,
//! keeping the parent-attempt reference visible.

use vstd::prelude::*;
use vstd::string::StringExecFns;

verus! {

/// A task row, as plain fields.
pub struct TaskFields {
    pub id: String,
    pub title: String,
    pub description: Option<String>,
    pub status: String,
    pub created_at: String,
    pub updated_at: String,
    pub parent_task_attempt: Option<String>,
}

/// A task row joined with its attempt standing.
pub struct TaskWithStatusFields {
    pub task: TaskFields,
    pub has_in_progress_attempt: bool,
    pub has_merged_attempt: bool,
    pub last_attempt_failed: bool,
}

/// The answer to a create-task tool call.
#[derive(Debug)]
pub struct CreateTaskResponse {
    pub task_id: String,
}

/// Full task details, with the parent attempt exposed.
#[derive(Debug)]
pub struct TaskDetails {
    pub id: String,
    pub title: String,
    pub description: Option<String>,
    pub status: String,
    pub created_at: String,
    pub updated_at: String,
    pub parent_task_attempt: Option<String>,
    pub has_in_progress_attempt: Option<bool>,
    pub has_merged_attempt: Option<bool>,
    pub last_attempt_failed: Option<bool>,
}

impl TaskDetails {
    /// Details from a bare task row: every field carried over, the
    /// attempt standing left unknown.
    pub fn from_task(task: TaskFields) -> (r: TaskDetails)
        ensures
            r.id == task.id,
            r.title == task.title,
            r.description == task.description,
            r.status == task.status,
            r.created_at == task.created_at,
            r.updated_at == task.updated_at,
            r.parent_task_attempt == task.parent_task_attempt,
            r.has_in_progress_attempt is None,
            r.has_merged_attempt is None,
            r.last_attempt_failed is None,
    {
        TaskDetails {
            id: task.id,
            title: task.title,
            description: task.description,
            status: task.status,
            created_at: task.created_at,
            updated_at: task.updated_at,
            parent_task_attempt: task.parent_task_attempt,
            has_in_progress_attempt: Option::None,
            has_merged_attempt: Option::None,
            last_attempt_failed: Option::None,
        }
    }
}

/// One task in a listing, with the parent attempt exposed.
#[derive(Debug)]
pub struct TaskSummary {
    pub id: String,
    pub title: String,
    pub status: String,
    pub created_at: String,
    pub updated_at: String,
    pub parent_task_attempt: Option<String>,
    pub has_in_progress_attempt: Option<bool>,
    pub has_merged_attempt: Option<bool>,
    pub last_attempt_failed: Option<bool>,
}

impl TaskSummary {
    /// A summary from a task row with its attempt standing: every field
    /// carried over, the standing made explicit.
    pub fn from_task_with_status(task: TaskWithStatusFields) -> (r: TaskSummary)
        ensures
            r.id == task.task.id,
            r.title == task.task.title,
            r.status == task.task.status,
            r.created_at == task.task.created_at,
            r.updated_at == task.task.updated_at,
            r.parent_task_attempt == task.task.parent_task_attempt,
            r.has_in_progress_attempt == Option::Some(task.has_in_progress_attempt),
            r.has_merged_attempt == Option::Some(task.has_merged_attempt),
            r.last_attempt_failed == Option::Some(task.last_attempt_failed),
    {
        TaskSummary {
            id: task.task.id,
            title: task.task.title,
            status: task.task.status,
            created_at: task.task.created_at,
            updated_at: task.task.updated_at,
            parent_task_attempt: task.task.parent_task_attempt,
            has_in_progress_attempt: Option::Some(task.has_in_progress_attempt),
            has_merged_attempt: Option::Some(task.has_merged_attempt),
            last_attempt_failed: Option::Some(task.last_attempt_failed),
        }
    }
}

/// The answer to a list-tasks tool call.
#[derive(Debug)]
pub struct ListTasksResponse {
    pub tasks: Vec<TaskSummary>,
    pub count: usize,
    pub project_id: String,
    pub applied_filters: AppliedFilters,
}

/// The filters a listing was answered under.
#[derive(Debug)]
pub struct AppliedFilters {
    pub status: Option<String>,
    pub limit: i32,
}

/// The answer to a get-task tool call.
#[derive(Debug)]
pub struct GetTaskResponse {
    pub task: TaskDetails,
}

/// A plain health answer for the service.
#[derive(Debug)]
pub struct ForgeHealthResponse {
    pub status: String,
    pub service: String,
    pub message: String,
}

/// The branch name a task attempt runs on: the `forge/` prefix, the
/// attempt's short identifier, and the task title's branch-safe form.
pub fn forge_branch_name(short_id: &str, task_title_id: &str) -> (r: String)
    ensures
        r@ == "forge/"@ + short_id@ + "-"@ + task_title_id@,
{
    let mut out: String = "forge/".to_owned();
    out.append(short_id);
    out.append("-");
    out.append(task_title_id);
    out
}

/// Assemble a listing answer: the summaries, their count, and the
/// filters it was produced under.
pub fn list_tasks_response(
    tasks: Vec<TaskSummary>,
    project_id: String,
    status_filter: Option<String>,
    limit: i32,
) -> (r: ListTasksResponse)
    ensures
        r.tasks == tasks,
        r.count == r.tasks.len(),
        r.project_id == project_id,
        r.applied_filters.status == status_filter,
        r.applied_filters.limit == limit,
{
    let count = tasks.len();
    ListTasksResponse {
        tasks,
        count,
        project_id,
        applied_filters: AppliedFilters { status: status_filter, limit },
    }
}

} // verus!
