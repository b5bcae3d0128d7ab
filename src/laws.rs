use vstd::prelude::*;

use crate::store::{
    create_step, has_id, ids_unique, listing, newest_first, with_completed, with_overwritten,
    without, TaskStore,
};
use crate::task::{fresh, holds_input, InputView, TaskView, ACT_AT_CREATION};

verus! {

broadcast use vstd::seq_lib::group_filter_ensures;

/// A row that was completed in `r0` is completed in `r1` wherever its id
/// still appears.
pub open spec fn completion_kept(r0: Seq<TaskView>, r1: Seq<TaskView>) -> bool {
    forall|i: int, j: int|
        0 <= i < r0.len() && 0 <= j < r1.len() && r0[i].is_completed && r1[j].id == r0[i].id
            ==> r1[j].is_completed
}

/// A successful creation followed by a full listing shows a task with the
/// given fields, not completed, with `act` 0 and equal timestamps.
pub proof fn lemma_create_then_read(
    s0: TaskStore,
    s1: TaskStore,
    input: InputView,
    now: i64,
    id: i32,
)
    requires
        s0.wf(),
        create_step(s0, s1, input, now, Ok(id)),
    ensures
        exists|i: int|
            0 <= i < listing(s1.rows(), false).len() && #[trigger] listing(s1.rows(), false)[i]
                == fresh(id, input, now),
        forall|t: TaskView|
            t == fresh(id, input, now) ==> t.id == id && holds_input(t, input) && !t.is_completed
                && t.act == ACT_AT_CREATION && t.created_at == t.updated_at,
{
    let p = choose|p: int|
        crate::store::is_slot(s0.rows(), p, now) && s1.rows() == s0.rows().insert(
            p,
            fresh(s0.next_id(), input, now),
        );
    assert(listing(s1.rows(), false)[p] == fresh(id, input, now));
}

/// Completing, updating or deleting an id that no row carries leaves the
/// rows as they were.
pub proof fn lemma_absent_id_no_effect(rows: Seq<TaskView>, id: i32, input: InputView, now: i64)
    requires
        !has_id(rows, id),
    ensures
        with_completed(rows, id, now) == rows,
        with_overwritten(rows, id, input, now) == rows,
        without(rows, id) == rows,
{
    assert(with_completed(rows, id, now) =~= rows);
    assert(with_overwritten(rows, id, input, now) =~= rows);
}

/// A creation never clears a completion.
pub proof fn lemma_create_keeps_completion(
    s0: TaskStore,
    s1: TaskStore,
    input: InputView,
    now: i64,
    r: Result<i32, crate::error::TaskError>,
)
    requires
        s0.wf(),
        create_step(s0, s1, input, now, r),
    ensures
        completion_kept(s0.rows(), s1.rows()),
{
    if s0.next_id() < i32::MAX {
        let p = choose|p: int|
            crate::store::is_slot(s0.rows(), p, now) && s1.rows() == s0.rows().insert(
                p,
                fresh(s0.next_id(), input, now),
            );
        assert forall|i: int, j: int|
            0 <= i < s0.rows().len() && 0 <= j < s1.rows().len() && s0.rows()[i].is_completed
                && s1.rows()[j].id == s0.rows()[i].id implies s1.rows()[j].is_completed by {
            assert(1 <= s0.rows()[i].id < s0.next_id());
            if j < p {
                assert(s1.rows()[j] == s0.rows()[j]);
            } else if j > p {
                assert(s1.rows()[j] == s0.rows()[j - 1]);
            }
        }
    }
}

/// Completing a task never clears a completion.
pub proof fn lemma_complete_keeps_completion(rows: Seq<TaskView>, id: i32, now: i64)
    requires
        ids_unique(rows),
    ensures
        completion_kept(rows, with_completed(rows, id, now)),
{
    let r1 = with_completed(rows, id, now);
    assert forall|i: int, j: int|
        0 <= i < rows.len() && 0 <= j < r1.len() && rows[i].is_completed && r1[j].id
            == rows[i].id implies r1[j].is_completed by {
        assert(r1[j].id == rows[j].id);
        if i != j {
            assert(rows[i].id != rows[j].id);
        }
    }
}

/// Updating a task never clears a completion.
pub proof fn lemma_update_keeps_completion(
    rows: Seq<TaskView>,
    id: i32,
    input: InputView,
    now: i64,
)
    requires
        ids_unique(rows),
    ensures
        completion_kept(rows, with_overwritten(rows, id, input, now)),
{
    let r1 = with_overwritten(rows, id, input, now);
    assert forall|i: int, j: int|
        0 <= i < rows.len() && 0 <= j < r1.len() && rows[i].is_completed && r1[j].id
            == rows[i].id implies r1[j].is_completed by {
        assert(r1[j].id == rows[j].id);
        if i != j {
            assert(rows[i].id != rows[j].id);
        }
    }
}

/// Deleting a task never clears a completion.
pub proof fn lemma_delete_keeps_completion(rows: Seq<TaskView>, id: i32)
    requires
        ids_unique(rows),
    ensures
        completion_kept(rows, without(rows, id)),
{
    let r1 = without(rows, id);
    if has_id(rows, id) {
        let k = choose|k: int| 0 <= k < rows.len() && rows[k].id == id;
        assert forall|i: int, j: int|
            0 <= i < rows.len() && 0 <= j < r1.len() && rows[i].is_completed && r1[j].id
                == rows[i].id implies r1[j].is_completed by {
            let src = if j < k { j } else { j + 1 };
            assert(r1[j] == rows[src]);
            if i != src {
                assert(rows[i].id != rows[src].id);
            }
        }
    }
}

/// Every row that a filter keeps comes from the filtered rows.
proof fn lemma_filter_within(rows: Seq<TaskView>, keep: spec_fn(TaskView) -> bool)
    ensures
        forall|i: int|
            0 <= i < rows.filter(keep).len() ==> rows.contains(#[trigger] rows.filter(keep)[i]),
    decreases rows.len(),
{
    reveal(Seq::filter);
    if rows.len() > 0 {
        let pre = rows.drop_last();
        lemma_filter_within(pre, keep);
        assert forall|i: int| 0 <= i < rows.filter(keep).len() implies rows.contains(
            #[trigger] rows.filter(keep)[i],
        ) by {
            if i < pre.filter(keep).len() {
                let k = choose|k: int| 0 <= k < pre.len() && pre[k] == pre.filter(keep)[i];
                assert(rows[k] == pre[k]);
            } else {
                assert(rows[rows.len() - 1] == rows.last());
            }
        }
    }
}

/// Excluding completed tasks lists exactly the rows not completed; a full
/// listing lists every row; both are newest first.
pub proof fn lemma_listing_filters(s: TaskStore)
    requires
        s.wf(),
    ensures
        listing(s.rows(), false) == s.rows(),
        newest_first(listing(s.rows(), false)),
        forall|t: TaskView| #[trigger]
            listing(s.rows(), true).contains(t) <==> (s.rows().contains(t) && !t.is_completed),
{
    let keep = |t: TaskView| !t.is_completed;
    lemma_filter_within(s.rows(), keep);
    assert forall|t: TaskView| #[trigger]
        listing(s.rows(), true).contains(t) <==> (s.rows().contains(t) && !t.is_completed) by {
        if listing(s.rows(), true).contains(t) {
            let i = choose|i: int|
                0 <= i < listing(s.rows(), true).len() && listing(s.rows(), true)[i] == t;
            assert(s.rows().filter(keep)[i] == t);
        }
        if s.rows().contains(t) && !t.is_completed {
            let i = choose|i: int| 0 <= i < s.rows().len() && s.rows()[i] == t;
            assert(s.rows().filter(keep).contains(s.rows()[i]));
        }
    }
}

/// After an update of an existing task at a time later than its last
/// change, a listing shows exactly the new fields and a later `updated_at`.
pub proof fn lemma_update_overwrites(
    s0: TaskStore,
    s1: TaskStore,
    id: i32,
    input: InputView,
    now: i64,
    i: int,
)
    requires
        s0.wf(),
        s1.rows() == with_overwritten(s0.rows(), id, input, now),
        0 <= i < s0.rows().len(),
        s0.rows()[i].id == id,
        s0.rows()[i].updated_at < now,
    ensures
        listing(s1.rows(), false)[i].id == id,
        holds_input(listing(s1.rows(), false)[i], input),
        listing(s1.rows(), false)[i].updated_at > s0.rows()[i].updated_at,
{
}

/// After a deletion no row carries the deleted id.
pub proof fn lemma_delete_removes(s0: TaskStore, s1: TaskStore, id: i32)
    requires
        s0.wf(),
        s1.rows() == without(s0.rows(), id),
    ensures
        !has_id(listing(s1.rows(), false), id),
{
    let rows = s0.rows();
    if has_id(rows, id) {
        let k = choose|k: int| 0 <= k < rows.len() && rows[k].id == id;
        assert forall|j: int| 0 <= j < s1.rows().len() implies s1.rows()[j].id != id by {
            let src = if j < k { j } else { j + 1 };
            assert(s1.rows()[j] == rows[src]);
            assert(src != k);
        }
    }
}

} // verus!
