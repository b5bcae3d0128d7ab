use vstd::prelude::*;

verus! {

/// Column default of `est` for rows written before the column existed.
pub const EST_DEFAULT: i32 = 1;

/// The schema step that creates the task table.
pub struct Migration;

impl Migration {
    /// The step's unique, stable name in the migration history.
    pub fn name(&self) -> (r: &'static str)
        ensures
            r@ == "create_task_table"@,
    {
        "create_task_table"
    }
}

/// The identifiers of the task table and its columns.
#[derive(Clone, Copy, PartialEq, Eq, Structural, Debug)]
pub enum Task {
    Table,
    Id,
    Title,
    Duration,
    Mode,
    IsCompleted,
    BreakDuration,
    Tags,
    Act,
    Est,
    CreatedAt,
    UpdatedAt,
}

/// The SQL identifier of each table or column: the variant's name in snake
/// case, and the table's own name for `Table`.
pub open spec fn identifier(t: Task) -> Seq<char> {
    match t {
        Task::Table => "task"@,
        Task::Id => "id"@,
        Task::Title => "title"@,
        Task::Duration => "duration"@,
        Task::Mode => "mode"@,
        Task::IsCompleted => "is_completed"@,
        Task::BreakDuration => "break_duration"@,
        Task::Tags => "tags"@,
        Task::Act => "act"@,
        Task::Est => "est"@,
        Task::CreatedAt => "created_at"@,
        Task::UpdatedAt => "updated_at"@,
    }
}

impl Task {
    /// The SQL identifier of this table or column.
    pub fn name(&self) -> (r: &'static str)
        ensures
            r@ == identifier(*self),
    {
        match self {
            Task::Table => "task",
            Task::Id => "id",
            Task::Title => "title",
            Task::Duration => "duration",
            Task::Mode => "mode",
            Task::IsCompleted => "is_completed",
            Task::BreakDuration => "break_duration",
            Task::Tags => "tags",
            Task::Act => "act",
            Task::Est => "est",
            Task::CreatedAt => "created_at",
            Task::UpdatedAt => "updated_at",
        }
    }
}

} // verus!
