use vstd::prelude::*;

use crate::error::TaskError;
use crate::task::{completed_at, fresh, overwritten_at, InputView, Model, TaskInput, TaskView};

verus! {

/// The rows of a vector as mathematical values.
pub open spec fn views(v: Seq<Model>) -> Seq<TaskView> {
    v.map_values(|t: Model| t@)
}

/// No two rows share an id.
pub open spec fn ids_unique(rows: Seq<TaskView>) -> bool {
    forall|i: int, j: int|
        0 <= i < rows.len() && 0 <= j < rows.len() && i != j ==> rows[i].id != rows[j].id
}

/// Rows are ordered by creation time, newest first.
pub open spec fn newest_first(rows: Seq<TaskView>) -> bool {
    forall|i: int, j: int| 0 <= i < j < rows.len() ==> rows[i].created_at >= rows[j].created_at
}

/// Some row carries `id`.
pub open spec fn has_id(rows: Seq<TaskView>, id: i32) -> bool {
    exists|i: int| 0 <= i < rows.len() && rows[i].id == id
}

/// `p` is where a row created at `now` goes: after every strictly newer row
/// and before every other one.
pub open spec fn is_slot(rows: Seq<TaskView>, p: int, now: i64) -> bool {
    &&& 0 <= p <= rows.len()
    &&& forall|i: int| 0 <= i < p ==> rows[i].created_at > now
    &&& p < rows.len() ==> rows[p].created_at <= now
}

/// What a listing returns: every row, or only those not completed.
pub open spec fn listing(rows: Seq<TaskView>, exclude_completed: bool) -> Seq<TaskView> {
    if exclude_completed {
        rows.filter(|t: TaskView| !t.is_completed)
    } else {
        rows
    }
}

/// The rows after completing `id` at time `now`.
pub open spec fn with_completed(rows: Seq<TaskView>, id: i32, now: i64) -> Seq<TaskView> {
    rows.map_values(|t: TaskView| if t.id == id { completed_at(t, now) } else { t })
}

/// The rows after overwriting `id` with `input` at time `now`.
pub open spec fn with_overwritten(
    rows: Seq<TaskView>,
    id: i32,
    input: InputView,
    now: i64,
) -> Seq<TaskView> {
    rows.map_values(|t: TaskView| if t.id == id { overwritten_at(t, input, now) } else { t })
}

/// The rows after deleting `id`: the row that carries it is removed, if any.
pub open spec fn without(rows: Seq<TaskView>, id: i32) -> Seq<TaskView> {
    if has_id(rows, id) {
        rows.remove(choose|i: int| 0 <= i < rows.len() && rows[i].id == id)
    } else {
        rows
    }
}

/// The single task table: rows newest first, and the id that the next
/// creation receives. Ids are never reused.
pub struct TaskStore {
    tasks: Vec<Model>,
    next_id: i32,
}

/// What a creation at time `now` does to the store, and what it returns.
pub open spec fn create_step(
    s0: TaskStore,
    s1: TaskStore,
    input: InputView,
    now: i64,
    r: Result<i32, TaskError>,
) -> bool {
    if s0.next_id() < i32::MAX {
        &&& r == Ok::<i32, TaskError>(s0.next_id())
        &&& s1.next_id() == s0.next_id() + 1
        &&& exists|p: int|
            is_slot(s0.rows(), p, now) && s1.rows() == s0.rows().insert(
                p,
                fresh(s0.next_id(), input, now),
            )
    } else {
        &&& r.is_err()
        &&& s1.rows() == s0.rows()
        &&& s1.next_id() == s0.next_id()
    }
}

impl TaskStore {
    /// The rows, newest first.
    pub closed spec fn rows(&self) -> Seq<TaskView> {
        views(self.tasks@)
    }

    /// The id that the next creation receives.
    pub closed spec fn next_id(&self) -> i32 {
        self.next_id
    }

    /// Ids are unique, positive and below the next one; rows are newest first.
    pub open spec fn wf(&self) -> bool {
        &&& 1 <= self.next_id() <= i32::MAX
        &&& ids_unique(self.rows())
        &&& newest_first(self.rows())
        &&& forall|i: int| 0 <= i < self.rows().len() ==> 1 <= #[trigger] self.rows()[i].id < self.next_id()
    }

    /// An empty table whose first task receives id 1.
    pub fn new() -> (r: TaskStore)
        ensures
            r.wf(),
            r.rows() == Seq::<TaskView>::empty(),
            r.next_id() == 1,
    {
        let r = TaskStore { tasks: Vec::new(), next_id: 1 };
        assert(r.rows() =~= Seq::<TaskView>::empty());
        r
    }

    /// Inserts a new task, not completed, with `act` 0 and both timestamps
    /// `now`, and returns its id. Fails only once every id is spent.
    pub fn create_task(&mut self, input: TaskInput, now: i64) -> (r: Result<i32, TaskError>)
        requires
            old(self).wf(),
        ensures
            final(self).wf(),
            create_step(*old(self), *final(self), input@, now, r),
    {
        if self.next_id == i32::MAX {
            return Err(TaskError::Query("no task id is left".to_owned()));
        }
        let ghost rows0 = self.rows();
        let mut p: usize = 0;
        while p < self.tasks.len() && self.tasks[p].created_at > now
            invariant
                p <= self.tasks.len(),
                self.rows() == rows0,
                forall|i: int| 0 <= i < p ==> rows0[i].created_at > now,
            decreases self.tasks.len() - p,
        {
            p = p + 1;
        }
        let id = self.next_id;
        let ghost row = fresh(id, input@, now);
        self.tasks.insert(p, Model::created(id, input, now));
        self.next_id = id + 1;
        assert(self.rows() =~= rows0.insert(p as int, row));
        assert(is_slot(rows0, p as int, now));
        Ok(id)
    }

    /// Index of the row that carries `id`, if any.
    fn position(&self, id: i32) -> (r: Option<usize>)
        requires
            self.wf(),
        ensures
            match r {
                Some(i) => i < self.rows().len() && self.rows()[i as int].id == id,
                None => !has_id(self.rows(), id),
            },
    {
        let mut i: usize = 0;
        while i < self.tasks.len()
            invariant
                i <= self.tasks.len(),
                forall|k: int| 0 <= k < i ==> self.rows()[k].id != id,
            decreases self.tasks.len() - i,
        {
            if self.tasks[i].id == id {
                return Some(i);
            }
            i = i + 1;
        }
        None
    }

    /// Every row, newest first; with `exclude_completed`, only the rows not
    /// completed, in the same order.
    pub fn get_all_tasks(&self, exclude_completed: bool) -> (r: Vec<Model>)
        requires
            self.wf(),
        ensures
            views(r@) == listing(self.rows(), exclude_completed),
            newest_first(views(r@)),
    {
        let mut out: Vec<Model> = Vec::new();
        let mut i: usize = 0;
        while i < self.tasks.len()
            invariant
                i <= self.tasks.len(),
                views(out@) == listing(self.rows().take(i as int), exclude_completed),
            decreases self.tasks.len() - i,
        {
            let ghost before = out@;
            let keep = !exclude_completed || !self.tasks[i].is_completed;
            if keep {
                out.push(self.tasks[i].duplicate());
                assert(views(out@) =~= views(before).push(self.rows()[i as int]));
            } else {
                assert(views(out@) =~= views(before));
            }
            proof {
                let pre = self.rows().take(i as int);
                let post = self.rows().take(i + 1);
                assert(post.drop_last() =~= pre);
                reveal(Seq::filter);
                if !exclude_completed {
                    assert(post =~= pre.push(self.rows()[i as int]));
                }
            }
            i = i + 1;
        }
        assert(self.rows().take(self.tasks.len() as int) =~= self.rows());
        proof {
            self.lemma_listing_newest_first(exclude_completed);
        }
        out
    }

    proof fn lemma_listing_newest_first(&self, exclude_completed: bool)
        requires
            self.wf(),
        ensures
            newest_first(listing(self.rows(), exclude_completed)),
    {
        if exclude_completed {
            lemma_filter_newest_first(self.rows(), |t: TaskView| !t.is_completed);
        }
    }

    /// Marks the task `id` completed at time `now`; a missing id changes
    /// nothing.
    pub fn complete_task_in_db(&mut self, id: i32, now: i64)
        requires
            old(self).wf(),
        ensures
            final(self).wf(),
            final(self).rows() == with_completed(old(self).rows(), id, now),
            final(self).next_id() == old(self).next_id(),
    {
        let ghost rows0 = self.rows();
        match self.position(id) {
            Some(i) => {
                let t = self.tasks[i].duplicate();
                self.tasks.set(i, t.completed(now));
                assert(self.rows() =~= with_completed(rows0, id, now));
            },
            None => {
                assert(self.rows() =~= with_completed(rows0, id, now));
            },
        }
    }

    /// Overwrites the caller-chosen fields of task `id` at time `now`; a
    /// missing id changes nothing.
    pub fn update_task_in_db(&mut self, id: i32, input: TaskInput, now: i64)
        requires
            old(self).wf(),
        ensures
            final(self).wf(),
            final(self).rows() == with_overwritten(old(self).rows(), id, input@, now),
            final(self).next_id() == old(self).next_id(),
    {
        let ghost rows0 = self.rows();
        let ghost iv = input@;
        match self.position(id) {
            Some(i) => {
                let t = self.tasks[i].duplicate();
                self.tasks.set(i, t.overwritten(input, now));
                assert(self.rows() =~= with_overwritten(rows0, id, iv, now));
            },
            None => {
                assert(self.rows() =~= with_overwritten(rows0, id, iv, now));
            },
        }
    }

    /// Removes task `id`; a missing id changes nothing.
    pub fn delete_task_in_db(&mut self, id: i32)
        requires
            old(self).wf(),
        ensures
            final(self).wf(),
            final(self).rows() == without(old(self).rows(), id),
            final(self).next_id() == old(self).next_id(),
    {
        let ghost rows0 = self.rows();
        match self.position(id) {
            Some(i) => {
                self.tasks.remove(i);
                let ghost k = choose|k: int| 0 <= k < rows0.len() && rows0[k].id == id;
                assert(k == i);
                assert(self.rows() =~= rows0.remove(i as int));
            },
            None => {},
        }
    }
}

/// Filtering keeps rows in their order, so it keeps them newest first.
proof fn lemma_filter_newest_first(rows: Seq<TaskView>, keep: spec_fn(TaskView) -> bool)
    requires
        newest_first(rows),
    ensures
        newest_first(rows.filter(keep)),
        forall|i: int| 0 <= i < rows.filter(keep).len() ==> rows.len() > 0
            && rows.filter(keep)[i].created_at >= rows.last().created_at,
    decreases rows.len(),
{
    reveal(Seq::filter);
    if rows.len() > 0 {
        let pre = rows.drop_last();
        assert(newest_first(pre));
        lemma_filter_newest_first(pre, keep);
        assert forall|i: int| 0 <= i < pre.filter(keep).len() implies pre.filter(keep)[i].created_at
            >= rows.last().created_at by {
            assert(pre.len() > 0);
            assert(pre.filter(keep)[i].created_at >= pre.last().created_at);
        }
    }
}

} // verus!
