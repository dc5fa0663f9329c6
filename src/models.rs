use vstd::prelude::*;

verus! {

/// A task as stored in the `tasks` table.
#[derive(Debug, Clone)]
pub struct Task {
    pub id: i64,
    pub user_id: i64,
    pub workspace_id: i64,
    pub title: String,
    pub description: Option<String>,
    pub project_id: Option<i64>,
    pub status: String,
    pub priority: i32,
    pub estimated_minutes: Option<i32>,
    pub difficulty_level: Option<i32>,
    pub energy_level: Option<String>,
    pub scheduled_date: Option<String>,
    pub due_date: Option<String>,
    pub completed_at: Option<String>,
    pub parent_task_id: Option<i64>,
    pub order_index: i32,
    pub column_position: i32,
    pub tags: Option<String>,
    pub created_at: String,
    pub updated_at: String,
}

/// The fields a caller supplies when creating a task; everything else takes
/// the database's defaults.
#[derive(Debug, Clone)]
pub struct CreateTaskInput {
    pub title: String,
    pub description: Option<String>,
    pub project_id: Option<i64>,
    pub estimated_minutes: Option<i32>,
    pub difficulty_level: Option<i32>,
    pub energy_level: Option<String>,
    pub scheduled_date: Option<String>,
    pub due_date: Option<String>,
    pub parent_task_id: Option<i64>,
    pub tags: Option<Vec<String>>,
}

/// A partial update: each present field is written, each absent one is kept.
#[derive(Debug, Clone)]
pub struct UpdateTaskInput {
    pub title: Option<String>,
    pub description: Option<String>,
    pub project_id: Option<i64>,
    pub status: Option<String>,
    pub priority: Option<i32>,
    pub estimated_minutes: Option<i32>,
    pub difficulty_level: Option<i32>,
    pub energy_level: Option<String>,
    pub scheduled_date: Option<String>,
    pub due_date: Option<String>,
    pub parent_task_id: Option<i64>,
    pub order_index: Option<i32>,
    pub column_position: Option<i32>,
    pub tags: Option<Vec<String>>,
}

/// A project that tasks may refer to.
#[derive(Debug, Clone)]
pub struct Project {
    pub id: i64,
    pub name: String,
    pub color: String,
    pub icon: Option<String>,
    pub archived: bool,
    pub created_at: String,
    pub updated_at: String,
}

/// Completion summary over the direct subtasks of a task. `percentage` is the
/// share of completed subtasks in whole percent, rounded down, and 0 when
/// there are no subtasks.
#[derive(Debug, Clone, Copy, PartialEq, Eq)]
pub struct SubtaskProgress {
    pub total: i32,
    pub completed: i32,
    pub percentage: i32,
}

/// A task together with its direct subtasks and their progress.
#[derive(Debug, Clone)]
pub struct TaskWithSubtasks {
    pub task: Task,
    pub subtasks: Vec<Task>,
    pub progress: SubtaskProgress,
}

/// The status a completed task carries.
pub const STATUS_COMPLETED: &'static str = "completed";

/// The status a new task starts with.
pub const STATUS_TODO: &'static str = "todo";

impl UpdateTaskInput {
    /// True when no field of the update is present.
    pub open spec fn spec_is_empty(&self) -> bool {
        &&& self.title is None
        &&& self.description is None
        &&& self.project_id is None
        &&& self.status is None
        &&& self.priority is None
        &&& self.estimated_minutes is None
        &&& self.difficulty_level is None
        &&& self.energy_level is None
        &&& self.scheduled_date is None
        &&& self.due_date is None
        &&& self.parent_task_id is None
        &&& self.order_index is None
        &&& self.column_position is None
        &&& self.tags is None
    }

    /// An update that changes nothing.
    pub fn empty() -> (r: UpdateTaskInput)
        ensures
            r.spec_is_empty(),
    {
        UpdateTaskInput {
            title: None,
            description: None,
            project_id: None,
            status: None,
            priority: None,
            estimated_minutes: None,
            difficulty_level: None,
            energy_level: None,
            scheduled_date: None,
            due_date: None,
            parent_task_id: None,
            order_index: None,
            column_position: None,
            tags: None,
        }
    }

    /// Whether no field of the update is present.
    pub fn is_empty(&self) -> (r: bool)
        ensures
            r == self.spec_is_empty(),
    {
        self.title.is_none() && self.description.is_none() && self.project_id.is_none()
            && self.status.is_none() && self.priority.is_none()
            && self.estimated_minutes.is_none() && self.difficulty_level.is_none()
            && self.energy_level.is_none() && self.scheduled_date.is_none()
            && self.due_date.is_none() && self.parent_task_id.is_none()
            && self.order_index.is_none() && self.column_position.is_none()
            && self.tags.is_none()
    }
}

} // verus!
