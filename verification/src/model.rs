//! The data of the service: tasks, projects, users and the payloads and
//! filters that create and select them.
use vstd::prelude::*;
use vstd::string::*;

verus! {

/// How urgent a task is.
#[derive(Clone, Copy, PartialEq, Eq, Structural, Debug)]
pub enum Priority {
    Low,
    Medium,
    High,
}

/// Where a task stands in its life.
#[derive(Clone, Copy, PartialEq, Eq, Structural, Debug)]
pub enum TaskStatus {
    Pending,
    InProgress,
    Done,
}

/// The variant name of a priority, as `{:?}` prints it.
pub open spec fn priority_name(p: Priority) -> Seq<char> {
    match p {
        Priority::Low => "Low"@,
        Priority::Medium => "Medium"@,
        Priority::High => "High"@,
    }
}

/// The variant name of a status, as `{:?}` prints it.
pub open spec fn status_name(s: TaskStatus) -> Seq<char> {
    match s {
        TaskStatus::Pending => "Pending"@,
        TaskStatus::InProgress => "InProgress"@,
        TaskStatus::Done => "Done"@,
    }
}

impl Priority {
    /// The variant name, as the enrichment endpoint reports it.
    pub fn debug_name(&self) -> (s: &'static str)
        ensures
            s@ == priority_name(*self),
    {
        match self {
            Priority::Low => "Low",
            Priority::Medium => "Medium",
            Priority::High => "High",
        }
    }
}

impl TaskStatus {
    /// The variant name, as the enrichment endpoint reports it.
    pub fn debug_name(&self) -> (s: &'static str)
        ensures
            s@ == status_name(*self),
    {
        match self {
            TaskStatus::Pending => "Pending",
            TaskStatus::InProgress => "InProgress",
            TaskStatus::Done => "Done",
        }
    }
}

/// Copies an optional string; the copy equals the original.
pub fn copy_opt_string(s: &Option<String>) -> (r: Option<String>)
    ensures
        r == *s,
{
    match s {
        Some(x) => Some(x.clone()),
        None => None,
    }
}

/// A unit of work.
#[derive(Clone, Debug)]
pub struct Task {
    pub id: u64,
    pub title: String,
    pub description: Option<String>,
    pub priority: Priority,
    pub status: TaskStatus,
}

/// The payload that creates or replaces the editable fields of a task.
#[derive(Clone, Debug)]
pub struct CreateTask {
    pub title: String,
    pub description: Option<String>,
    pub priority: Priority,
}

/// The query that selects tasks; an absent field selects everything.
#[derive(Clone, Debug)]
pub struct TaskFilter {
    pub status: Option<TaskStatus>,
    pub priority: Option<Priority>,
    pub search: Option<String>,
}

/// A group of tasks.
#[derive(Clone, Debug)]
pub struct Project {
    pub id: u64,
    pub name: String,
    pub description: Option<String>,
}

/// The payload that creates a project.
#[derive(Clone, Debug)]
pub struct CreateProject {
    pub name: String,
    pub description: Option<String>,
}

/// A person known to the service.
#[derive(Clone, Debug)]
pub struct User {
    pub id: u64,
    pub email: String,
    pub first_name: String,
    pub last_name: String,
}

/// The payload that creates a user.
#[derive(Clone, Debug)]
pub struct CreateUser {
    pub email: String,
    pub first_name: String,
    pub last_name: String,
}

/// The identity that a valid API key stands for.
#[derive(Clone, Debug)]
pub struct AuthenticatedClient {
    pub name: String,
    pub role: String,
}

/// The read-only configuration of the service.
#[derive(Clone, Debug)]
pub struct AppConfig {
    pub app_name: String,
    pub version: String,
    pub cors_origins: Vec<String>,
}

/// Whether `t` passes every condition that `f` sets: its status, its
/// priority, and the search text in its title or description.
pub open spec fn task_matches(f: TaskFilter, t: Task) -> bool {
    &&& (f.status matches Some(s) ==> t.status == s)
    &&& (f.priority matches Some(p) ==> t.priority == p)
    &&& (f.search matches Some(q) ==> {
        ||| occurs_in_text(t.title@, q@)
        ||| (t.description matches Some(d) && occurs_in_text(d@, q@))
    })
}

/// Whether `pat` occurs in `hay` as a contiguous run of characters.
pub open spec fn occurs_in_text(hay: Seq<char>, pat: Seq<char>) -> bool {
    crate::text::occurs_in(hay, pat)
}

} // verus!
