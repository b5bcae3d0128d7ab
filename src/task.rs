use vstd::prelude::*;

verus! {

/// `act` of a freshly created task.
pub const ACT_AT_CREATION: i32 = 0;

/// One task row. Timestamps are UTC milliseconds since the Unix epoch.
#[derive(Debug)]
pub struct Model {
    pub id: i32,
    pub title: String,
    pub duration: i32,
    pub mode: String,
    pub is_completed: bool,
    pub break_duration: i32,
    pub tags: Vec<String>,
    pub act: i32,
    pub est: i32,
    pub created_at: i64,
    pub updated_at: i64,
}

/// The fields a caller chooses when creating or updating a task.
#[derive(Debug)]
pub struct TaskInput {
    pub title: String,
    pub duration: i32,
    pub mode: String,
    pub break_duration: i32,
    pub tags: Vec<String>,
    pub est: i32,
}

/// A task row as a mathematical value.
pub ghost struct TaskView {
    pub id: i32,
    pub title: Seq<char>,
    pub duration: i32,
    pub mode: Seq<char>,
    pub is_completed: bool,
    pub break_duration: i32,
    pub tags: Seq<Seq<char>>,
    pub act: i32,
    pub est: i32,
    pub created_at: i64,
    pub updated_at: i64,
}

/// The caller-chosen fields as a mathematical value.
pub ghost struct InputView {
    pub title: Seq<char>,
    pub duration: i32,
    pub mode: Seq<char>,
    pub break_duration: i32,
    pub tags: Seq<Seq<char>>,
    pub est: i32,
}

/// The text of each label, in order.
pub open spec fn labels(tags: Seq<String>) -> Seq<Seq<char>> {
    tags.map_values(|s: String| s@)
}

impl View for Model {
    type V = TaskView;

    open spec fn view(&self) -> TaskView {
        TaskView {
            id: self.id,
            title: self.title@,
            duration: self.duration,
            mode: self.mode@,
            is_completed: self.is_completed,
            break_duration: self.break_duration,
            tags: labels(self.tags@),
            act: self.act,
            est: self.est,
            created_at: self.created_at,
            updated_at: self.updated_at,
        }
    }
}

impl View for TaskInput {
    type V = InputView;

    open spec fn view(&self) -> InputView {
        InputView {
            title: self.title@,
            duration: self.duration,
            mode: self.mode@,
            break_duration: self.break_duration,
            tags: labels(self.tags@),
            est: self.est,
        }
    }
}

/// The caller-chosen fields of `t` are exactly those of `input`.
pub open spec fn holds_input(t: TaskView, input: InputView) -> bool {
    &&& t.title == input.title
    &&& t.duration == input.duration
    &&& t.mode == input.mode
    &&& t.break_duration == input.break_duration
    &&& t.tags == input.tags
    &&& t.est == input.est
}

/// The row that a creation at time `now` writes under `id`: not completed,
/// nothing done yet, both timestamps `now`.
pub open spec fn fresh(id: i32, input: InputView, now: i64) -> TaskView {
    TaskView {
        id,
        title: input.title,
        duration: input.duration,
        mode: input.mode,
        is_completed: false,
        break_duration: input.break_duration,
        tags: input.tags,
        act: ACT_AT_CREATION,
        est: input.est,
        created_at: now,
        updated_at: now,
    }
}

/// `t` marked complete at time `now`; everything else as in `t`.
pub open spec fn completed_at(t: TaskView, now: i64) -> TaskView {
    TaskView { is_completed: true, updated_at: now, ..t }
}

/// `t` with the caller-chosen fields taken from `input` at time `now`.
pub open spec fn overwritten_at(t: TaskView, input: InputView, now: i64) -> TaskView {
    TaskView {
        title: input.title,
        duration: input.duration,
        mode: input.mode,
        break_duration: input.break_duration,
        tags: input.tags,
        est: input.est,
        updated_at: now,
        ..t
    }
}

/// A copy of a list of labels, element for element.
pub fn copy_tags(tags: &Vec<String>) -> (r: Vec<String>)
    ensures
        r@ == tags@,
{
    let r = tags.clone();
    assert(r@ =~= tags@);
    r
}

impl Model {
    /// The row that a creation at time `now` writes under `id`.
    pub fn created(id: i32, input: TaskInput, now: i64) -> (r: Model)
        ensures
            r@ == fresh(id, input@, now),
    {
        Model {
            id,
            title: input.title,
            duration: input.duration,
            mode: input.mode,
            is_completed: false,
            break_duration: input.break_duration,
            tags: input.tags,
            act: ACT_AT_CREATION,
            est: input.est,
            created_at: now,
            updated_at: now,
        }
    }

    /// A copy of the row.
    pub fn duplicate(&self) -> (r: Model)
        ensures
            r@ == self@,
    {
        Model {
            id: self.id,
            title: self.title.clone(),
            duration: self.duration,
            mode: self.mode.clone(),
            is_completed: self.is_completed,
            break_duration: self.break_duration,
            tags: copy_tags(&self.tags),
            act: self.act,
            est: self.est,
            created_at: self.created_at,
            updated_at: self.updated_at,
        }
    }

    /// The row marked complete at time `now`.
    pub fn completed(self, now: i64) -> (r: Model)
        ensures
            r@ == completed_at(self@, now),
    {
        Model { is_completed: true, updated_at: now, ..self }
    }

    /// The row with the caller-chosen fields overwritten at time `now`.
    pub fn overwritten(self, input: TaskInput, now: i64) -> (r: Model)
        ensures
            r@ == overwritten_at(self@, input@, now),
    {
        Model {
            title: input.title,
            duration: input.duration,
            mode: input.mode,
            break_duration: input.break_duration,
            tags: input.tags,
            est: input.est,
            updated_at: now,
            ..self
        }
    }
}

/// What to write back after looking a row up for completion: the completed
/// row when one was found, nothing when the id was absent.
pub fn complete_found(found: Option<Model>, now: i64) -> (r: Option<Model>)
    ensures
        match found {
            Some(t) => r.is_some() && r.unwrap()@ == completed_at(t@, now),
            None => r.is_none(),
        },
{
    match found {
        Some(t) => Some(t.completed(now)),
        None => None,
    }
}

/// What to write back after looking a row up for an update: the
/// overwritten row when one was found, nothing when the id was absent.
pub fn update_found(found: Option<Model>, input: TaskInput, now: i64) -> (r: Option<Model>)
    ensures
        match found {
            Some(t) => r.is_some() && r.unwrap()@ == overwritten_at(t@, input@, now),
            None => r.is_none(),
        },
{
    match found {
        Some(t) => Some(t.overwritten(input, now)),
        None => None,
    }
}

} // verus!
