use crate::task::{Status, Task, TaskView};
use vstd::arithmetic::div_mod::{lemma_mod_add_multiples_vanish, lemma_small_mod};
use vstd::prelude::*;

verus! {

/// What the keys act on: the columns, or the editor for a new task.
#[derive(Clone, Copy, Debug, PartialEq, Eq, Structural)]
pub enum AppMode {
    Board,
    NewTask,
}

/// The contents of a list of tasks, in order.
pub open spec fn task_views(tasks: Seq<Task>) -> Seq<TaskView> {
    tasks.map_values(|t: Task| t@)
}

/// The contents of a list of borrowed tasks, in order.
pub open spec fn ref_views(tasks: Seq<&Task>) -> Seq<TaskView> {
    tasks.map_values(|t: &Task| t@)
}

/// The test that puts a task into the column of `status`.
pub open spec fn in_column(status: Status) -> spec_fn(TaskView) -> bool {
    |t: TaskView| t.status == status
}

/// The tasks of one stage, in the order of the snapshot.
pub open spec fn column_of(tasks: Seq<TaskView>, status: Status) -> Seq<TaskView> {
    tasks.filter(in_column(status))
}

/// `i` is the position of the first task in `tasks` whose identity is `id`.
pub open spec fn is_first_with_id(tasks: Seq<TaskView>, id: Option<i64>, i: int) -> bool {
    &&& 0 <= i < tasks.len()
    &&& tasks[i].id == id
    &&& forall|j: int| 0 <= j < i ==> (#[trigger] tasks[j]).id != id
}

/// The position of the first task in `tasks` whose identity is `id`, if there
/// is one.
pub open spec fn first_with_id(tasks: Seq<TaskView>, id: Option<i64>) -> Option<int> {
    if exists|i: int| is_first_with_id(tasks, id, i) {
        Some(choose|i: int| is_first_with_id(tasks, id, i))
    } else {
        None
    }
}

/// One step back in a ring of `n` places: from place 0 to the last place, from
/// any other place to the one before it.
pub proof fn lemma_step_back(i: int, n: int)
    requires
        0 <= i < n,
    ensures
        (i + n - 1) % n == if i == 0 {
            n - 1
        } else {
            i - 1
        },
{
    if i == 0 {
        lemma_small_mod((n - 1) as nat, n as nat);
    } else {
        lemma_mod_add_multiples_vanish(i - 1, n);
        lemma_small_mod((i - 1) as nat, n as nat);
    }
}

/// The board as a value: a snapshot of all tasks, the active column, the
/// cursor into that column, and the two flags of the run loop.
pub struct Board {
    pub tasks: Seq<TaskView>,
    pub selected_status: Status,
    pub selected_index: nat,
    pub should_quit: bool,
    pub mode: AppMode,
}

impl Board {
    /// The board right after the snapshot was first loaded.
    pub open spec fn initial(tasks: Seq<TaskView>) -> Board {
        Board {
            tasks,
            selected_status: Status::Backlog,
            selected_index: 0,
            should_quit: false,
            mode: AppMode::Board,
        }
    }

    pub open spec fn column(self, status: Status) -> Seq<TaskView> {
        column_of(self.tasks, status)
    }

    /// The active column.
    pub open spec fn current(self) -> Seq<TaskView> {
        self.column(self.selected_status)
    }

    /// The cursor points at a task of the active column.
    pub open spec fn on_task(self) -> bool {
        self.selected_index < self.current().len()
    }

    /// The task under the cursor.
    pub open spec fn cursor_task(self) -> TaskView
        recommends
            self.on_task(),
    {
        self.current()[self.selected_index as int]
    }

    /// The cursor is on a task of the active column, or rests at 0.
    pub open spec fn wf(self) -> bool {
        self.on_task() || self.selected_index == 0
    }

    /// The next column becomes active; the cursor goes to its top.
    pub open spec fn next_status(self) -> Board {
        Board { selected_status: self.selected_status.next(), selected_index: 0, ..self }
    }

    /// The cursor goes one task down and from the last task to the first. It
    /// stays where it is when it is on no task.
    pub open spec fn next_task(self) -> Board {
        if self.on_task() {
            let i = self.selected_index as int;
            let n = self.current().len() as int;
            Board { selected_index: ((i + 1) % n) as nat, ..self }
        } else {
            self
        }
    }

    /// The cursor goes one task up and from the first task to the last. It
    /// stays where it is when it is on no task.
    pub open spec fn prev_task(self) -> Board {
        if self.on_task() {
            let i = self.selected_index as int;
            let n = self.current().len() as int;
            Board { selected_index: ((i + n - 1) % n) as nat, ..self }
        } else {
            self
        }
    }

    /// The other mode becomes active.
    pub open spec fn toggled(self) -> Board {
        Board {
            mode: match self.mode {
                AppMode::Board => AppMode::NewTask,
                AppMode::NewTask => AppMode::Board,
            },
            ..self
        }
    }

    /// The snapshot is replaced; column and cursor stay.
    pub open spec fn reloaded(self, tasks: Seq<TaskView>) -> Board {
        Board { tasks, ..self }
    }

    /// The snapshot is replaced after a delete; the cursor goes to the top.
    pub open spec fn after_delete(self, tasks: Seq<TaskView>) -> Board {
        Board { tasks, selected_index: 0, ..self }
    }

    /// The snapshot is replaced after the task with identity `id` was sent to
    /// `target`. That column becomes active, and the cursor goes to the first
    /// task in it that has the identity; it stays where it was when there is
    /// none.
    pub open spec fn moved(self, tasks: Seq<TaskView>, target: Status, id: Option<i64>) -> Board {
        Board {
            tasks,
            selected_status: target,
            selected_index: match first_with_id(column_of(tasks, target), id) {
                Some(i) => i as nat,
                None => self.selected_index,
            },
            ..self
        }
    }
}

/// Every task has an identity, and no two tasks share one: what holds of a
/// snapshot that the store handed out.
pub open spec fn distinct_ids(tasks: Seq<TaskView>) -> bool {
    &&& forall|i: int| 0 <= i < tasks.len() ==> (#[trigger] tasks[i]).id is Some
    &&& forall|i: int, j: int|
        0 <= i < j < tasks.len() ==> (#[trigger] tasks[i]).id != (#[trigger] tasks[j]).id
}

/// `after` is what a reload shows once the store has overwritten the status
/// of the record `id`: the same records in the same order, that one in the
/// stage `status`, the others as they were.
pub open spec fn reflects_update(
    before: Seq<TaskView>,
    id: i64,
    status: Status,
    after: Seq<TaskView>,
) -> bool {
    &&& after.len() == before.len()
    &&& forall|i: int|
        0 <= i < before.len() ==> {
            &&& (#[trigger] after[i]).id == before[i].id
            &&& after[i].description == before[i].description
            &&& after[i].created_at == before[i].created_at
            &&& after[i].deadline == before[i].deadline
            &&& after[i].status == if before[i].id == Some(id) {
                status
            } else {
                before[i].status
            }
            &&& before[i].id != Some(id) ==> after[i].updated_at == before[i].updated_at
        }
}

/// The test that keeps every record but the one with identity `id`.
pub open spec fn other_than(id: i64) -> spec_fn(TaskView) -> bool {
    |t: TaskView| t.id != Some(id)
}

/// `after` is what a reload shows once the store has removed the record
/// `id`: the other records, in their order.
pub open spec fn reflects_delete(before: Seq<TaskView>, id: i64, after: Seq<TaskView>) -> bool {
    after == before.filter(other_than(id))
}

/// `after` is what a reload shows once the store has taken in `task` as a new
/// record: the records from before, then the new one under an identity that
/// no other record has.
pub open spec fn reflects_insert(before: Seq<TaskView>, task: TaskView, after: Seq<TaskView>) -> bool {
    &&& after.len() == before.len() + 1
    &&& after.drop_last() == before
    &&& after.last().id is Some
    &&& after.last() == TaskView { id: after.last().id, ..task }
    &&& forall|i: int| 0 <= i < before.len() ==> (#[trigger] before[i]).id != after.last().id
}

/// Each task of a column is a task of the snapshot in that stage, and each
/// task of the snapshot in that stage is in the column.
pub proof fn lemma_column_members(tasks: Seq<TaskView>, status: Status)
    ensures
        forall|j: int|
            0 <= j < column_of(tasks, status).len() ==> {
                &&& (#[trigger] column_of(tasks, status)[j]).status == status
                &&& tasks.contains(column_of(tasks, status)[j])
            },
        forall|i: int|
            0 <= i < tasks.len() && (#[trigger] tasks[i]).status == status ==> column_of(
                tasks,
                status,
            ).contains(tasks[i]),
{
    let column = column_of(tasks, status);
    assert forall|j: int| 0 <= j < column.len() implies (#[trigger] column[j]).status == status
        && tasks.contains(column[j]) by {
        tasks.lemma_filter_pred(in_column(status), j);
        assert(column.contains(column[j]));
        tasks.lemma_filter_contains_rev(in_column(status), column[j]);
    }
    assert forall|i: int| 0 <= i < tasks.len() && (#[trigger] tasks[i]).status
        == status implies column.contains(tasks[i]) by {
        tasks.lemma_filter_contains(in_column(status), i);
    }
}

/// Where a list holds a task with the identity `id`, `first_with_id` finds
/// the first such task.
pub proof fn lemma_first_with_id(tasks: Seq<TaskView>, id: Option<i64>)
    ensures
        match first_with_id(tasks, id) {
            Some(i) => is_first_with_id(tasks, id, i),
            None => forall|j: int| 0 <= j < tasks.len() ==> (#[trigger] tasks[j]).id != id,
        },
{
    if exists|i: int| is_first_with_id(tasks, id, i) {
    } else {
        assert forall|j: int| 0 <= j < tasks.len() implies (#[trigger] tasks[j]).id != id by {
            if tasks[j].id == id {
                lemma_least_with_id(tasks, id, j);
            }
        }
    }
}

/// Below any task with the identity `id` stands a first one.
proof fn lemma_least_with_id(tasks: Seq<TaskView>, id: Option<i64>, k: int)
    requires
        0 <= k < tasks.len(),
        tasks[k].id == id,
    ensures
        exists|i: int| is_first_with_id(tasks, id, i),
    decreases k,
{
    if exists|j: int| 0 <= j < k && (#[trigger] tasks[j]).id == id {
        let j = choose|j: int| 0 <= j < k && (#[trigger] tasks[j]).id == id;
        lemma_least_with_id(tasks, id, j);
    } else {
        assert(is_first_with_id(tasks, id, k));
    }
}

/// Snapshots that agree, place by place, on which tasks are in a stage have
/// columns of one length for that stage.
pub proof fn lemma_same_stage_same_len(a: Seq<TaskView>, b: Seq<TaskView>, status: Status)
    requires
        a.len() == b.len(),
        forall|i: int|
            0 <= i < a.len() ==> ((#[trigger] a[i]).status == status <==> b[i].status == status),
    ensures
        column_of(a, status).len() == column_of(b, status).len(),
    decreases a.len(),
{
    if a.len() > 0 {
        let a0 = a.drop_last();
        let b0 = b.drop_last();
        assert forall|i: int| 0 <= i < a0.len() implies ((#[trigger] a0[i]).status == status
            <==> b0[i].status == status) by {
            assert(a0[i] == a[i] && b0[i] == b[i]);
        }
        lemma_same_stage_same_len(a0, b0, status);
        assert(a =~= a0.push(a.last()) && b =~= b0.push(b.last()));
        a0.lemma_filter_len_push(in_column(status), a.last());
        b0.lemma_filter_len_push(in_column(status), b.last());
        assert(a[a.len() - 1] == a.last() && b[a.len() - 1] == b.last());
    } else {
        assert(a =~= b);
    }
}

/// When one task leaves a stage and every other task stays in or out of it,
/// the column of that stage is shorter by one.
pub proof fn lemma_one_task_leaves(
    before: Seq<TaskView>,
    after: Seq<TaskView>,
    k: int,
    status: Status,
)
    requires
        before.len() == after.len(),
        0 <= k < before.len(),
        before[k].status == status,
        after[k].status != status,
        forall|i: int|
            0 <= i < before.len() && i != k ==> ((#[trigger] before[i]).status == status
                <==> after[i].status == status),
    ensures
        column_of(after, status).len() == column_of(before, status).len() - 1,
    decreases before.len(),
{
    let b0 = before.drop_last();
    let a0 = after.drop_last();
    let last = before.len() - 1;
    assert(before =~= b0.push(before.last()) && after =~= a0.push(after.last()));
    b0.lemma_filter_len_push(in_column(status), before.last());
    a0.lemma_filter_len_push(in_column(status), after.last());
    assert(before[last] == before.last() && after[last] == after.last());
    if k == last {
        assert forall|i: int| 0 <= i < b0.len() implies ((#[trigger] b0[i]).status == status
            <==> a0[i].status == status) by {
            assert(b0[i] == before[i] && a0[i] == after[i]);
        }
        lemma_same_stage_same_len(b0, a0, status);
    } else {
        assert(b0[k] == before[k] && a0[k] == after[k]);
        assert forall|i: int| 0 <= i < b0.len() && i != k implies ((#[trigger] b0[i]).status
            == status <==> a0[i].status == status) by {
            assert(b0[i] == before[i] && a0[i] == after[i]);
        }
        lemma_one_task_leaves(b0, a0, k, status);
    }
}

/// After the task under the cursor was sent to a column and the store did as
/// asked, the cursor is on that task in the column, and the task is in the
/// stage of that column. Where the column is another than the one it was in,
/// the column it left holds it no longer and is shorter by one.
pub proof fn lemma_move_follows_task(b: Board, target: Status, after: Seq<TaskView>)
    requires
        b.on_task(),
        distinct_ids(b.tasks),
        reflects_update(b.tasks, b.cursor_task().id->0, target, after),
    ensures
        ({
            let m = b.moved(after, target, b.cursor_task().id);
            &&& m.on_task()
            &&& m.wf()
            &&& m.selected_status == target
            &&& m.cursor_task().id == b.cursor_task().id
            &&& m.cursor_task().status == target
            &&& target != b.selected_status ==> {
                &&& forall|j: int|
                    0 <= j < m.column(b.selected_status).len() ==> (#[trigger] m.column(
                        b.selected_status,
                    )[j]).id != b.cursor_task().id
                &&& m.column(b.selected_status).len() == b.current().len() - 1
            }
        }),
{
    let moved = b.cursor_task();
    let m = b.moved(after, target, moved.id);
    lemma_column_members(b.tasks, b.selected_status);
    lemma_column_members(after, target);
    lemma_column_members(after, b.selected_status);
    assert(b.tasks.contains(moved));
    let k = choose|k: int| 0 <= k < b.tasks.len() && b.tasks[k] == moved;
    assert(moved.id is Some);
    assert(after[k].id == moved.id && after[k].status == target);
    let column = column_of(after, target);
    assert(column.contains(after[k]));
    let c = choose|c: int| 0 <= c < column.len() && column[c] == after[k];
    lemma_least_with_id(column, moved.id, c);
    lemma_first_with_id(column, moved.id);
    if target != b.selected_status {
        let old_column = column_of(after, b.selected_status);
        assert forall|j: int| 0 <= j < old_column.len() implies (#[trigger] old_column[j]).id
            != moved.id by {
            assert(after.contains(old_column[j]));
            let i = choose|i: int| 0 <= i < after.len() && after[i] == old_column[j];
            if after[i].id == moved.id {
                assert(b.tasks[i].id == b.tasks[k].id);
                assert(i == k);
            }
        }
        assert forall|i: int| 0 <= i < b.tasks.len() && i != k implies ((
        #[trigger] b.tasks[i]).status == b.selected_status <==> after[i].status
            == b.selected_status) by {
            assert(after[i].id == b.tasks[i].id);
            assert(b.tasks[i].id != b.tasks[k].id);
        }
        lemma_one_task_leaves(b.tasks, after, k, b.selected_status);
    }
}

/// After the only task of the active column was removed and the store did as
/// asked, that column is empty and the cursor rests at 0, on no task.
pub proof fn lemma_delete_last_empties_column(b: Board, after: Seq<TaskView>)
    requires
        b.current().len() == 1,
        b.on_task(),
        distinct_ids(b.tasks),
        reflects_delete(b.tasks, b.cursor_task().id->0, after),
    ensures
        ({
            let d = b.after_delete(after);
            &&& d.selected_status == b.selected_status
            &&& d.current().len() == 0
            &&& d.selected_index == 0
            &&& !d.on_task()
            &&& d.wf()
        }),
{
    let gone = b.cursor_task();
    let d = b.after_delete(after);
    lemma_column_members(b.tasks, b.selected_status);
    lemma_column_members(after, b.selected_status);
    let column = d.current();
    if column.len() > 0 {
        let t = column[0];
        assert(after.contains(t));
        assert(b.tasks.filter(other_than(gone.id->0)).contains(t));
        b.tasks.lemma_filter_contains_rev(other_than(gone.id->0), t);
        let j = choose|j: int| 0 <= j < after.len() && after[j] == t;
        b.tasks.lemma_filter_pred(other_than(gone.id->0), j);
        assert(t.id != gone.id);
        let i = choose|i: int| 0 <= i < b.tasks.len() && b.tasks[i] == t;
        assert(b.current().contains(b.tasks[i]));
        assert(b.current()[0] == gone);
        assert(false);
    }
}

/// After a task was stored and the store did as asked, the task is the last
/// of its column, with its description, its times and its deadline as they
/// were given, every other column is as it was, and a cursor that was in
/// order still is.
pub proof fn lemma_create_appends(b: Board, task: TaskView, after: Seq<TaskView>)
    requires
        reflects_insert(b.tasks, task, after),
    ensures
        ({
            let c = b.reloaded(after);
            &&& c.column(task.status) == b.column(task.status).push(after.last())
            &&& c.column(task.status).last().description == task.description
            &&& c.column(task.status).last().created_at == task.created_at
            &&& c.column(task.status).last().updated_at == task.updated_at
            &&& c.column(task.status).last().deadline == task.deadline
            &&& forall|s: Status| s != task.status ==> #[trigger] c.column(s) == b.column(s)
            &&& b.wf() ==> c.wf()
        }),
{
    let c = b.reloaded(after);
    assert(after == b.tasks.push(after.last()));
    assert forall|s: Status| true implies #[trigger] c.column(s) == if s == task.status {
        b.column(s).push(after.last())
    } else {
        b.column(s)
    } by {
        b.tasks.lemma_filter_push(after.last(), in_column(s));
    }
    assert(c.column(task.status) == b.column(task.status).push(after.last()));
    assert(c.column(b.selected_status).len() >= b.column(b.selected_status).len());
}

/// Five steps to the next column lead back to the column of the start, and
/// each of them leaves the cursor at 0.
pub proof fn lemma_five_columns_return(b: Board)
    ensures
        ({
            let b1 = b.next_status();
            let b2 = b1.next_status();
            let b3 = b2.next_status();
            let b4 = b3.next_status();
            let b5 = b4.next_status();
            &&& b5.selected_status == b.selected_status
            &&& b1.selected_index == 0 && b2.selected_index == 0 && b3.selected_index == 0
            &&& b4.selected_index == 0 && b5.selected_index == 0
            &&& b1.wf() && b2.wf() && b3.wf() && b4.wf() && b5.wf()
            &&& b5.tasks == b.tasks
        }),
{
}

} // verus!
