use crate::board::{column_of, first_with_id, in_column, is_first_with_id, lemma_step_back,
    ref_views, task_views, AppMode, Board};
use crate::db::Database;
use crate::error::AppError;
use crate::task::{Status, Task, TaskView};
use vstd::prelude::*;

verus! {

/// A key and what it does, as shown in the help row.
pub struct AppControl {
    pub key_binding: &'static str,
    pub title: &'static str,
}

/// The help row as pairs of texts: key, then what it does.
pub open spec fn control_texts(controls: Seq<AppControl>) -> Seq<(Seq<char>, Seq<char>)> {
    controls.map_values(|c: AppControl| (c.key_binding@, c.title@))
}

/// The keys of the board.
pub fn board_controls() -> (controls: [AppControl; 6])
    ensures
        control_texts(controls@) == seq![
            ("q"@, "Quit"@),
            ("Tab"@, "Select next column"@),
            ("←→"@, "Move task"@),
            ("↑↓"@, "Select task"@),
            ("d"@, "Delete task"@),
            ("n"@, "Create task"@),
        ],
{
    let controls = [
        AppControl { key_binding: "q", title: "Quit" },
        AppControl { key_binding: "Tab", title: "Select next column" },
        AppControl { key_binding: "←→", title: "Move task" },
        AppControl { key_binding: "↑↓", title: "Select task" },
        AppControl { key_binding: "d", title: "Delete task" },
        AppControl { key_binding: "n", title: "Create task" },
    ];
    assert(control_texts(controls@) =~= seq![
        ("q"@, "Quit"@),
        ("Tab"@, "Select next column"@),
        ("←→"@, "Move task"@),
        ("↑↓"@, "Select task"@),
        ("d"@, "Delete task"@),
        ("n"@, "Create task"@),
    ]);
    controls
}

/// The keys of the editor for a new task.
pub fn task_modal_controls() -> (controls: [AppControl; 3])
    ensures
        control_texts(controls@) == seq![
            ("Ctrl + s"@, "Create task"@),
            ("Tab"@, "Description/deadline switch"@),
            ("Esc"@, "Go back"@),
        ],
{
    let controls = [
        AppControl { key_binding: "Ctrl + s", title: "Create task" },
        AppControl { key_binding: "Tab", title: "Description/deadline switch" },
        AppControl { key_binding: "Esc", title: "Go back" },
    ];
    assert(control_texts(controls@) =~= seq![
        ("Ctrl + s"@, "Create task"@),
        ("Tab"@, "Description/deadline switch"@),
        ("Esc"@, "Go back"@),
    ]);
    controls
}

/// The board: a snapshot of all stored tasks and a cursor into one column.
pub struct AppState {
    pub tasks: Vec<Task>,
    pub selected_status: Status,
    pub selected_index: usize,
    pub should_quit: bool,
    pub mode: AppMode,
}

impl View for AppState {
    type V = Board;

    open spec fn view(&self) -> Board {
        Board {
            tasks: task_views(self.tasks@),
            selected_status: self.selected_status,
            selected_index: self.selected_index as nat,
            should_quit: self.should_quit,
            mode: self.mode,
        }
    }
}

/// Taking one more task into a snapshot adds it to its own column and to no
/// other.
proof fn lemma_column_push(tasks: Seq<Task>, t: Task, status: Status)
    ensures
        column_of(task_views(tasks.push(t)), status) == if t.status == status {
            column_of(task_views(tasks), status).push(t@)
        } else {
            column_of(task_views(tasks), status)
        },
{
    assert(task_views(tasks.push(t)) =~= task_views(tasks).push(t@));
    task_views(tasks).lemma_filter_push(t@, in_column(status));
}

/// The position of the first task in a column that has the identity `id`.
fn position_of_id(column: &Vec<&Task>, id: Option<i64>) -> (r: Option<usize>)
    ensures
        match r {
            Some(i) => first_with_id(ref_views(column@), id) == Some(i as int),
            None => first_with_id(ref_views(column@), id) is None,
        },
{
    let mut i: usize = 0;
    while i < column.len()
        invariant
            i <= column.len(),
            forall|j: int| 0 <= j < i ==> (#[trigger] ref_views(column@)[j]).id != id,
        decreases column.len() - i,
    {
        let same = match (column[i].id, id) {
            (Some(a), Some(b)) => a == b,
            (None, None) => true,
            _ => false,
        };
        assert(same == (ref_views(column@)[i as int].id == id));
        if same {
            assert(is_first_with_id(ref_views(column@), id, i as int));
            return Some(i);
        }
        i += 1;
    }
    None
}

impl AppState {
    /// Loads the snapshot from the store and puts the board over it.
    pub fn new(db: &Database) -> (r: Result<AppState, AppError>)
        ensures
            r matches Ok(app) ==> app@ == Board::initial(app@.tasks) && app@.wf(),
            r matches Err(e) ==> e is Db || e is Decode,
    {
        match db.load_tasks() {
            Ok(tasks) => Ok(AppState::with_tasks(tasks)),
            Err(e) => Err(e),
        }
    }

    /// The board over a snapshot: `Backlog` active, cursor at the top.
    pub fn with_tasks(tasks: Vec<Task>) -> (app: AppState)
        ensures
            app@ == Board::initial(task_views(tasks@)),
            app@.wf(),
    {
        AppState {
            tasks,
            selected_status: Status::Backlog,
            selected_index: 0,
            should_quit: false,
            mode: AppMode::Board,
        }
    }

    /// The tasks of one stage, in the order of the snapshot.
    pub fn tasks_for_status(&self, status: &Status) -> (column: Vec<&Task>)
        ensures
            ref_views(column@) == self@.column(*status),
    {
        let mut column: Vec<&Task> = Vec::new();
        let mut i: usize = 0;
        assert(self.tasks@.take(0) =~= Seq::<Task>::empty());
        assert(task_views(Seq::<Task>::empty()) =~= Seq::<TaskView>::empty());
        assert(column_of(Seq::<TaskView>::empty(), *status) =~= Seq::<TaskView>::empty()) by {
            reveal(Seq::filter);
        }
        assert(ref_views(column@) =~= Seq::<TaskView>::empty());
        while i < self.tasks.len()
            invariant
                i <= self.tasks.len(),
                ref_views(column@) == column_of(task_views(self.tasks@.take(i as int)), *status),
            decreases self.tasks.len() - i,
        {
            let task = &self.tasks[i];
            proof {
                assert(self.tasks@.take(i + 1) =~= self.tasks@.take(i as int).push(*task));
                lemma_column_push(self.tasks@.take(i as int), *task, *status);
            }
            if task.status == *status {
                let ghost before = column@;
                column.push(task);
                assert(ref_views(before.push(task)) =~= ref_views(before).push(task@));
            }
            i += 1;
        }
        assert(self.tasks@.take(i as int) =~= self.tasks@);
        column
    }

    /// Makes the next column active and puts the cursor at its top.
    pub fn select_next_status(&mut self)
        ensures
            final(self)@ == old(self)@.next_status(),
            final(self).selected_index == 0,
            final(self)@.wf(),
    {
        self.selected_status = self.selected_status.next();
        self.selected_index = 0;
    }

    /// Moves the cursor one task down, from the last task to the first.
    /// Nothing changes when the cursor is on no task.
    pub fn select_next_task(&mut self)
        ensures
            final(self)@ == old(self)@.next_task(),
            old(self)@.wf() ==> final(self)@.wf(),
    {
        let len = self.tasks_for_status(&self.selected_status).len();
        assert(len == self@.current().len());
        if self.selected_index >= len {
            return ;
        }
        self.selected_index = (self.selected_index + 1) % len;
    }

    /// Moves the cursor one task up, from the first task to the last.
    /// Nothing changes when the cursor is on no task.
    pub fn select_prev_task(&mut self)
        ensures
            final(self)@ == old(self)@.prev_task(),
            old(self)@.wf() ==> final(self)@.wf(),
    {
        let len = self.tasks_for_status(&self.selected_status).len();
        assert(len == self@.current().len());
        if self.selected_index >= len {
            return ;
        }
        proof {
            lemma_step_back(self.selected_index as int, len as int);
        }
        self.selected_index = if self.selected_index == 0 {
            len - 1
        } else {
            self.selected_index - 1
        };
    }

    /// Takes in the snapshot that was loaded after the task with identity
    /// `id` was sent to the column of `status`: that column becomes active,
    /// and the cursor goes to the task. It stays where it was when the column
    /// holds no task with that identity.
    pub fn place_moved(&mut self, reloaded: Vec<Task>, status: Status, id: Option<i64>)
        ensures
            final(self)@ == old(self)@.moved(task_views(reloaded@), status, id),
    {
        self.tasks = reloaded;
        self.selected_status = status;
        let found = {
            let column = self.tasks_for_status(&status);
            position_of_id(&column, id)
        };
        if let Some(i) = found {
            self.selected_index = i;
        }
    }

    /// Sends the task under the cursor to the column of `status`: the store
    /// overwrites its status, the snapshot is loaded anew, that column
    /// becomes active and the cursor follows the task. Nothing happens when
    /// the cursor is on no task. When the store fails, the board stays as it
    /// was.
    pub fn move_task_to_column(&mut self, db: &mut Database, status: &Status) -> (r: Result<
        (),
        AppError,
    >)
        ensures
            !old(self)@.on_task() ==> r is Ok && final(self)@ == old(self)@,
            old(self)@.on_task() && r is Ok ==> final(self)@ == old(self)@.moved(
                final(self)@.tasks,
                *status,
                old(self)@.cursor_task().id,
            ),
            r is Err ==> final(self)@ == old(self)@,
            r matches Err(e) ==> e is Db || e is Decode,
    {
        let task = {
            let column = self.tasks_for_status(&self.selected_status);
            if self.selected_index >= column.len() {
                return Ok(());
            }
            assert(ref_views(column@)[self.selected_index as int] == self@.cursor_task());
            column[self.selected_index].with_status(*status)
        };
        if let Err(e) = db.update_task(&task) {
            return Err(e);
        }
        match db.load_tasks() {
            Ok(reloaded) => {
                self.place_moved(reloaded, *status, task.id);
                Ok(())
            },
            Err(e) => Err(e),
        }
    }

    /// Stores a new task and loads the snapshot anew. Column and cursor stay.
    /// A task with a timestamp that cannot be written is refused, and only
    /// such a task. When the store fails, the board stays as it was.
    pub fn create_task(&mut self, db: &mut Database, task: &Task) -> (r: Result<(), AppError>)
        ensures
            r is Ok ==> final(self)@ == old(self)@.reloaded(final(self)@.tasks),
            r is Err ==> final(self)@ == old(self)@,
            r matches Err(AppError::Encode) <==> !task@.is_encodable(),
    {
        if let Err(e) = db.insert_task(task) {
            return Err(e);
        }
        match db.load_tasks() {
            Ok(reloaded) => {
                self.tasks = reloaded;
                Ok(())
            },
            Err(e) => Err(e),
        }
    }

    /// Removes the task under the cursor from the store, loads the snapshot
    /// anew and puts the cursor at the top. Nothing happens when the cursor
    /// is on no task. When the store fails, the board stays as it was.
    pub fn delete_task(&mut self, db: &mut Database) -> (r: Result<(), AppError>)
        ensures
            !old(self)@.on_task() ==> r is Ok && final(self)@ == old(self)@,
            old(self)@.on_task() && r is Ok ==> final(self)@ == old(self)@.after_delete(
                final(self)@.tasks,
            ),
            old(self)@.wf() ==> final(self)@.wf(),
            r is Err ==> final(self)@ == old(self)@,
            r matches Err(e) ==> e is Db || e is Decode,
    {
        let deleted = {
            let column = self.tasks_for_status(&self.selected_status);
            if self.selected_index >= column.len() {
                return Ok(());
            }
            db.delete_task(column[self.selected_index])
        };
        if let Err(e) = deleted {
            return Err(e);
        }
        match db.load_tasks() {
            Ok(reloaded) => {
                self.tasks = reloaded;
                self.selected_index = 0;
                Ok(())
            },
            Err(e) => Err(e),
        }
    }

    /// Switches between the columns and the editor for a new task.
    pub fn switch_mode(&mut self)
        ensures
            final(self)@ == old(self)@.toggled(),
    {
        match self.mode {
            AppMode::Board => self.mode = AppMode::NewTask,
            AppMode::NewTask => self.mode = AppMode::Board,
        }
    }
}

/// The text being typed for a new task.
pub struct TaskModalState {
    pub description_in: String,
    pub deadline_in: String,
    pub entering_deadline: bool,
}

impl TaskModalState {
    /// No text in either field.
    pub open spec fn is_blank(&self) -> bool {
        &&& self.description_in@.len() == 0
        &&& self.deadline_in@.len() == 0
        &&& !self.entering_deadline
    }

    pub fn new() -> (draft: Self)
        ensures
            draft.is_blank(),
    {
        Self {
            description_in: String::new(),
            deadline_in: String::new(),
            entering_deadline: false,
        }
    }

    /// Empties both fields and gives the input back to the description.
    pub fn clear(&mut self)
        ensures
            final(self).is_blank(),
    {
        self.description_in = String::new();
        self.deadline_in = String::new();
        self.entering_deadline = false;
    }
}

} // verus!
