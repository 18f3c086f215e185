use crate::time::{clock_now, representable, Timestamp};
use vstd::prelude::*;

verus! {

/// A workflow stage. The five stages form a ring in declaration order.
#[derive(Clone, Copy, Debug, PartialEq, Eq, Structural)]
pub enum Status {
    Backlog,
    Today,
    InProgress,
    Done,
    Archived,
}

impl Status {
    /// Position of the stage in the ring, counted from `Backlog`.
    pub open spec fn position(self) -> int {
        match self {
            Status::Backlog => 0,
            Status::Today => 1,
            Status::InProgress => 2,
            Status::Done => 3,
            Status::Archived => 4,
        }
    }

    /// The stage found at a ring position, taken modulo five.
    pub open spec fn at(i: int) -> Status {
        let k = i % 5;
        if k == 0 {
            Status::Backlog
        } else if k == 1 {
            Status::Today
        } else if k == 2 {
            Status::InProgress
        } else if k == 3 {
            Status::Done
        } else {
            Status::Archived
        }
    }

    pub open spec fn spec_next(self) -> Status {
        Status::at(self.position() + 1)
    }

    pub open spec fn spec_prev(self) -> Status {
        Status::at(self.position() + 4)
    }

    /// The successor in the ring; `Archived` is followed by `Backlog`.
    #[verifier::when_used_as_spec(spec_next)]
    pub fn next(self) -> (r: Status)
        ensures
            r == self.spec_next(),
    {
        match self {
            Status::Backlog => Status::Today,
            Status::Today => Status::InProgress,
            Status::InProgress => Status::Done,
            Status::Done => Status::Archived,
            Status::Archived => Status::Backlog,
        }
    }

    /// The predecessor in the ring; `Backlog` is preceded by `Archived`.
    #[verifier::when_used_as_spec(spec_prev)]
    pub fn prev(self) -> (r: Status)
        ensures
            r == self.spec_prev(),
    {
        match self {
            Status::Backlog => Status::Archived,
            Status::Today => Status::Backlog,
            Status::InProgress => Status::Today,
            Status::Done => Status::InProgress,
            Status::Archived => Status::Done,
        }
    }

    /// The five stages in the order of the ring.
    pub fn all() -> (stages: [Status; 5])
        ensures
            forall|i: int| 0 <= i < 5 ==> stages[i] == Status::at(i),
    {
        [Status::Backlog, Status::Today, Status::InProgress, Status::Done, Status::Archived]
    }

    /// The text under which the stage is stored.
    pub open spec fn token_text(self) -> Seq<char> {
        match self {
            Status::Backlog => "backlog"@,
            Status::Today => "today"@,
            Status::InProgress => "in_progress"@,
            Status::Done => "done"@,
            Status::Archived => "archived"@,
        }
    }

    /// The stage that a stored text names, if it names one.
    pub open spec fn of_token(text: Seq<char>) -> Option<Status> {
        if text == "backlog"@ {
            Some(Status::Backlog)
        } else if text == "today"@ {
            Some(Status::Today)
        } else if text == "in_progress"@ {
            Some(Status::InProgress)
        } else if text == "done"@ {
            Some(Status::Done)
        } else if text == "archived"@ {
            Some(Status::Archived)
        } else {
            None
        }
    }

    /// The heading under which the stage is shown.
    pub open spec fn label_text(self) -> Seq<char> {
        match self {
            Status::Backlog => "BACKLOG"@,
            Status::Today => "TODAY"@,
            Status::InProgress => "IN PROGRESS"@,
            Status::Done => "DONE"@,
            Status::Archived => "ARCHIVED"@,
        }
    }

    pub fn token(self) -> (r: &'static str)
        ensures
            r@ == self.token_text(),
    {
        match self {
            Status::Backlog => "backlog",
            Status::Today => "today",
            Status::InProgress => "in_progress",
            Status::Done => "done",
            Status::Archived => "archived",
        }
    }

    /// Reads a stored text back into a stage. A text that is none of the five
    /// tokens names no stage.
    pub fn from_token(text: &str) -> (r: Option<Status>)
        ensures
            r == Status::of_token(text@),
    {
        let owned = text.to_owned();
        if owned == "backlog".to_owned() {
            Some(Status::Backlog)
        } else if owned == "today".to_owned() {
            Some(Status::Today)
        } else if owned == "in_progress".to_owned() {
            Some(Status::InProgress)
        } else if owned == "done".to_owned() {
            Some(Status::Done)
        } else if owned == "archived".to_owned() {
            Some(Status::Archived)
        } else {
            None
        }
    }

    pub fn label(self) -> (r: &'static str)
        ensures
            r@ == self.label_text(),
    {
        match self {
            Status::Backlog => "BACKLOG",
            Status::Today => "TODAY",
            Status::InProgress => "IN PROGRESS",
            Status::Done => "DONE",
            Status::Archived => "ARCHIVED",
        }
    }
}

/// A task as the board holds it. `id` is absent until the store has assigned
/// one.
#[derive(Clone, Debug)]
pub struct Task {
    pub id: Option<i64>,
    pub status: Status,
    pub description: String,
    pub created_at: Timestamp,
    pub updated_at: Timestamp,
    pub deadline: Option<Timestamp>,
}

/// The content of a task.
pub struct TaskView {
    pub id: Option<i64>,
    pub status: Status,
    pub description: Seq<char>,
    pub created_at: Timestamp,
    pub updated_at: Timestamp,
    pub deadline: Option<Timestamp>,
}

impl View for Task {
    type V = TaskView;

    open spec fn view(&self) -> TaskView {
        TaskView {
            id: self.id,
            status: self.status,
            description: self.description@,
            created_at: self.created_at,
            updated_at: self.updated_at,
            deadline: self.deadline,
        }
    }
}

impl TaskView {
    /// An unsaved task made at the instant `now`: no identity yet, `Backlog`
    /// unless a stage is given, created and updated at `now`.
    pub open spec fn fresh(
        description: Seq<char>,
        status: Option<Status>,
        deadline: Option<Timestamp>,
        now: Timestamp,
    ) -> TaskView {
        TaskView {
            id: None,
            status: match status {
                Some(s) => s,
                None => Status::Backlog,
            },
            description,
            created_at: now,
            updated_at: now,
            deadline,
        }
    }

    /// Every timestamp of the task can be written in the stored format.
    pub open spec fn is_encodable(self) -> bool {
        &&& representable(self.created_at)
        &&& representable(self.updated_at)
        &&& self.deadline matches Some(due) ==> representable(due)
    }

    /// The task was not updated before it was created.
    pub open spec fn is_monotonic(self) -> bool {
        self.updated_at.at_or_after(self.created_at)
    }

    pub open spec fn with_status(self, status: Status) -> TaskView {
        TaskView { status, ..self }
    }
}

impl Task {
    /// Makes an unsaved task, stamped with one reading of the system clock.
    pub fn new(description: String, status: Option<Status>, deadline: Option<Timestamp>) -> (t:
        Task)
        ensures
            t@ == TaskView::fresh(description@, status, deadline, t.created_at),
            t@.is_monotonic(),
            representable(t.created_at),
    {
        Task::new_at(description, status, deadline, clock_now())
    }

    /// Makes an unsaved task, stamped with the instant `now`.
    pub fn new_at(
        description: String,
        status: Option<Status>,
        deadline: Option<Timestamp>,
        now: Timestamp,
    ) -> (t: Task)
        ensures
            t@ == TaskView::fresh(description@, status, deadline, now),
            t@.is_monotonic(),
    {
        let status = match status {
            Some(s) => s,
            None => Status::Backlog,
        };
        Task { id: None, status, description, created_at: now, updated_at: now, deadline }
    }

    /// A copy of the task in another stage.
    pub fn with_status(&self, status: Status) -> (t: Task)
        ensures
            t@ == self@.with_status(status),
    {
        Task {
            id: self.id,
            status,
            description: self.description.clone(),
            created_at: self.created_at,
            updated_at: self.updated_at,
            deadline: self.deadline,
        }
    }
}

/// Each stage is read back from its own token.
pub proof fn lemma_token_round_trip(s: Status)
    ensures
        Status::of_token(s.token_text()) == Some(s),
{
    reveal_strlit("backlog");
    reveal_strlit("today");
    reveal_strlit("in_progress");
    reveal_strlit("done");
    reveal_strlit("archived");
    assert("backlog"@.len() == 7 && "today"@.len() == 5 && "in_progress"@.len() == 11);
    assert("done"@.len() == 4 && "archived"@.len() == 8);
}

/// Going forward and then back, or back and then forward, changes nothing.
pub proof fn lemma_next_prev_inverse(s: Status)
    ensures
        s.next().prev() == s,
        s.prev().next() == s,
{
}

/// Five steps in either direction lead round the ring to the start.
pub proof fn lemma_five_steps_return(s: Status)
    ensures
        s.next().next().next().next().next() == s,
        s.prev().prev().prev().prev().prev() == s,
{
}

} // verus!
