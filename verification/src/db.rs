use crate::error::{AppError, DecodeError};
use crate::task::{lemma_token_round_trip, Status, Task, TaskView};
use crate::time::{clock_now, is_text_of, rfc3339_instant, rfc3339_local, Timestamp};
use crate::utils::{db_timestamp_to_local_dt, reads_as};
use vstd::prelude::*;

verus! {

/// `rusqlite::Connection`, carried as a value of which nothing is known.
#[verifier::external_type_specification]
#[verifier::external_body]
pub struct ExConnection(rusqlite::Connection);

/// The store of tasks: one table behind one connection.
pub struct Database {
    connection: rusqlite::Connection,
}

/// One record of the table `tasks`, as the storage engine holds it.
#[derive(Clone, Debug)]
pub struct TaskRow {
    pub id: Option<i64>,
    pub description: String,
    pub status: String,
    pub created_at: String,
    pub updated_at: String,
    pub deadline: Option<String>,
}

/// A value bound to a placeholder of a statement.
enum SqlValue {
    Null,
    Integer(i64),
    Text(String),
}

/// Opens a database file through `rusqlite::Connection::open`. Whether that
/// succeeds depends on the file system, so nothing is claimed of the outcome.
#[verifier::external_body]
fn open_connection(path: &str) -> Result<rusqlite::Connection, rusqlite::Error> {
    rusqlite::Connection::open(path)
}

/// Runs a batch of statements through `rusqlite::Connection::execute_batch`.
/// Nothing is claimed of the outcome.
#[verifier::external_body]
fn run_batch(connection: &rusqlite::Connection, sql: &str) -> Result<(), rusqlite::Error> {
    connection.execute_batch(sql)
}

/// Runs one statement through `rusqlite::Connection::execute`, with `values`
/// bound to its placeholders in order. Nothing is claimed of the outcome.
#[verifier::external_body]
fn run_statement(connection: &rusqlite::Connection, sql: &str, values: &Vec<SqlValue>) -> Result<
    usize,
    rusqlite::Error,
> {
    let bound = values.iter().map(
        |v|
            match v {
                SqlValue::Null => rusqlite::types::Value::Null,
                SqlValue::Integer(i) => rusqlite::types::Value::Integer(*i),
                SqlValue::Text(s) => rusqlite::types::Value::Text(s.clone()),
            },
    );
    connection.execute(sql, rusqlite::params_from_iter(bound))
}

/// Runs a query through `rusqlite::Connection::prepare` and
/// `rusqlite::Statement::query_map` and hands back each record of the answer
/// with its six columns read by name. Nothing is claimed of the outcome.
#[verifier::external_body]
fn query_task_rows(connection: &rusqlite::Connection, sql: &str) -> Result<
    Vec<TaskRow>,
    rusqlite::Error,
> {
    let mut statement = connection.prepare(sql)?;
    let rows = statement.query_map([], |row| {
        Ok(TaskRow {
            status: row.get("status")?,
            created_at: row.get("created_at")?,
            updated_at: row.get("updated_at")?,
            deadline: row.get("deadline")?,
            id: row.get("id")?,
            description: row.get("description")?,
        })
    })?;
    rows.collect()
}

/// The task that the columns of a record make, once its timestamps are read:
/// `created_at` and `updated_at` hold what reading gave, `deadline` holds
/// `None` for an absent deadline and `Some` of what reading gave for a present
/// one. An unreadable timestamp is reported before an unknown status.
pub open spec fn spec_assemble(
    id: Option<i64>,
    description: Seq<char>,
    status: Seq<char>,
    created_at: Option<Timestamp>,
    updated_at: Option<Timestamp>,
    deadline: Option<Option<Timestamp>>,
) -> Result<TaskView, DecodeError> {
    if created_at is None || updated_at is None || deadline == Some(None::<Timestamp>) {
        Err(DecodeError::BadTimestamp)
    } else {
        match Status::of_token(status) {
            None => Err(DecodeError::UnknownStatus),
            Some(s) => Ok(
                TaskView {
                    id,
                    status: s,
                    description,
                    created_at: created_at->0,
                    updated_at: updated_at->0,
                    deadline: match deadline {
                        Some(d) => d,
                        None => None,
                    },
                },
            ),
        }
    }
}

/// The content of a decoding outcome.
pub open spec fn outcome_view(r: Result<Task, DecodeError>) -> Result<TaskView, DecodeError> {
    match r {
        Ok(t) => Ok(t@),
        Err(e) => Err(e),
    }
}

/// Makes a task from the columns of a record and what reading its
/// timestamps gave.
pub fn assemble(
    id: Option<i64>,
    description: String,
    status: &str,
    created_at: Option<Timestamp>,
    updated_at: Option<Timestamp>,
    deadline: Option<Option<Timestamp>>,
) -> (r: Result<Task, DecodeError>)
    ensures
        outcome_view(r) == spec_assemble(
            id,
            description@,
            status@,
            created_at,
            updated_at,
            deadline,
        ),
{
    let created_at = match created_at {
        Some(t) => t,
        None => return Err(DecodeError::BadTimestamp),
    };
    let updated_at = match updated_at {
        Some(t) => t,
        None => return Err(DecodeError::BadTimestamp),
    };
    let deadline = match deadline {
        Some(Some(t)) => Some(t),
        Some(None) => return Err(DecodeError::BadTimestamp),
        None => None,
    };
    match Status::from_token(status) {
        Some(status) => Ok(Task { id, status, description, created_at, updated_at, deadline }),
        None => Err(DecodeError::UnknownStatus),
    }
}

/// `read` may be what reading the deadline column gave: nothing for an
/// absent deadline, else what the text reads as.
pub open spec fn deadline_reads_as(text: Option<String>, read: Option<Option<Timestamp>>) -> bool {
    match text {
        Some(t) => read matches Some(due) && reads_as(t@, due),
        None => read is None,
    }
}

/// `r` may be the outcome of decoding `row`: it is what the columns make
/// with timestamps that their texts read as.
pub open spec fn decodes_to(row: TaskRow, r: Result<TaskView, DecodeError>) -> bool {
    exists|
        created: Option<Timestamp>,
        updated: Option<Timestamp>,
        deadline: Option<Option<Timestamp>>,
    |
        {
            &&& reads_as(row.created_at@, created)
            &&& reads_as(row.updated_at@, updated)
            &&& deadline_reads_as(row.deadline, deadline)
            &&& r == #[trigger] spec_assemble(
                row.id,
                row.description@,
                row.status@,
                created,
                updated,
                deadline,
            )
        }
}

/// Reads one record as a task.
pub fn decode_row(row: &TaskRow) -> (r: Result<Task, DecodeError>)
    ensures
        decodes_to(*row, outcome_view(r)),
{
    let created = db_timestamp_to_local_dt(row.created_at.as_str());
    let updated = db_timestamp_to_local_dt(row.updated_at.as_str());
    let deadline = match &row.deadline {
        Some(text) => Some(db_timestamp_to_local_dt(text.as_str())),
        None => None,
    };
    let r = assemble(
        row.id,
        row.description.clone(),
        row.status.as_str(),
        created,
        updated,
        deadline,
    );
    assert(outcome_view(r) == spec_assemble(
        row.id,
        row.description@,
        row.status@,
        created,
        updated,
        deadline,
    ));
    r
}

/// `tasks` may be what decoding `rows` gave: record by record, in order.
pub open spec fn decoded_from(rows: Seq<TaskRow>, tasks: Seq<Task>) -> bool {
    &&& tasks.len() == rows.len()
    &&& forall|i: int| 0 <= i < rows.len() ==> decodes_to(#[trigger] rows[i], Ok(tasks[i]@))
}

/// The record at place `i` is the first of `rows` that cannot be read, and
/// `e` is why: the records before it decode, and it decodes to the error.
pub open spec fn fails_first_at(rows: Seq<TaskRow>, i: int, e: DecodeError) -> bool {
    &&& 0 <= i < rows.len()
    &&& decodes_to(rows[i], Err(e))
    &&& exists|read: Seq<Task>| #[trigger] decoded_from(rows.take(i), read)
}

/// A task that a record decodes to can be stored again.
pub proof fn lemma_decoded_is_encodable(row: TaskRow, task: TaskView)
    requires
        decodes_to(row, Ok(task)),
    ensures
        task.is_encodable(),
{
}

/// Reads records as tasks, in order. The first record that cannot be read
/// ends the reading with its error.
pub fn decode_rows(rows: &Vec<TaskRow>) -> (r: Result<Vec<Task>, DecodeError>)
    ensures
        match r {
            Ok(tasks) => decoded_from(rows@, tasks@),
            Err(e) => exists|i: int| #[trigger] fails_first_at(rows@, i, e),
        },
{
    let mut tasks: Vec<Task> = Vec::new();
    let mut i: usize = 0;
    while i < rows.len()
        invariant
            i <= rows.len(),
            tasks.len() == i,
            forall|j: int| 0 <= j < i ==> decodes_to(#[trigger] rows[j], Ok(tasks[j]@)),
        decreases rows.len() - i,
    {
        match decode_row(&rows[i]) {
            Ok(task) => tasks.push(task),
            Err(e) => {
                proof {
                    assert forall|j: int| 0 <= j < i implies decodes_to(
                        #[trigger] rows@.take(i as int)[j],
                        Ok(tasks@[j]@),
                    ) by {
                        assert(rows@.take(i as int)[j] == rows[j]);
                    }
                    assert(decoded_from(rows@.take(i as int), tasks@));
                    assert(fails_first_at(rows@, i as int, e));
                }
                return Err(e);
            },
        }
        i += 1;
    }
    Ok(tasks)
}

/// `row` holds `task` as a record: identity, description and status token
/// are those of the task, each timestamp column holds its own timestamp
/// written in the strict format, and a deadline is present in both or in
/// neither.
pub open spec fn holds(row: TaskRow, task: TaskView) -> bool {
    &&& row.id == task.id
    &&& row.description@ == task.description
    &&& row.status@ == task.status.token_text()
    &&& is_text_of(row.created_at@, task.created_at)
    &&& is_text_of(row.updated_at@, task.updated_at)
    &&& match row.deadline {
        Some(text) => task.deadline matches Some(due) && is_text_of(text@, due),
        None => task.deadline is None,
    }
}

/// Writes a task as a record, its timestamps in the strict format with the
/// offset of the local zone. There is a record exactly when every timestamp
/// of the task can be written in that format.
pub fn encode_row(task: &Task) -> (r: Option<TaskRow>)
    ensures
        r is Some <==> task@.is_encodable(),
        r matches Some(row) ==> holds(row, task@),
{
    let created_at = match rfc3339_local(task.created_at) {
        Some(text) => text,
        None => return None,
    };
    let updated_at = match rfc3339_local(task.updated_at) {
        Some(text) => text,
        None => return None,
    };
    let deadline = match task.deadline {
        Some(due) => match rfc3339_local(due) {
            Some(text) => Some(text),
            None => return None,
        },
        None => None,
    };
    Some(
        TaskRow {
            id: task.id,
            description: task.description.clone(),
            status: task.status.token().to_owned(),
            created_at,
            updated_at,
            deadline,
        },
    )
}

/// A record that holds a task decodes, if it decodes at all, to a task with
/// the same identity, description and status, and with a deadline exactly
/// when the task has one. That the timestamps come back as they went is the
/// work of the two formats and is not claimed here.
pub proof fn lemma_row_round_trip(task: TaskView, row: TaskRow, back: TaskView)
    requires
        holds(row, task),
        decodes_to(row, Ok(back)),
    ensures
        back.id == task.id,
        back.description == task.description,
        back.status == task.status,
        back.deadline is Some <==> task.deadline is Some,
{
    lemma_token_round_trip(task.status);
}

/// The strict format reads the timestamp texts of `row` back as the
/// timestamps of `task`. Whether it does is the work of chrono's writer and
/// reader together; nothing here claims it.
pub open spec fn texts_read_back(row: TaskRow, task: TaskView) -> bool {
    &&& rfc3339_instant(row.created_at@) == Some(task.created_at)
    &&& rfc3339_instant(row.updated_at@) == Some(task.updated_at)
    &&& row.deadline matches Some(text) ==> rfc3339_instant(text@) == task.deadline
}

/// Where the strict format reads the texts of a record back as the timestamps
/// of the task that it holds, the record decodes to the task itself.
pub proof fn lemma_row_reads_back(task: TaskView, row: TaskRow, back: Result<TaskView, DecodeError>)
    requires
        holds(row, task),
        decodes_to(row, back),
        texts_read_back(row, task),
    ensures
        back == Ok::<TaskView, DecodeError>(task),
{
    lemma_token_round_trip(task.status);
}

/// The values that the insert statement binds, in the order of its
/// placeholders: description, status, created, updated, deadline.
fn insert_values(row: &TaskRow) -> (values: Vec<SqlValue>)
    ensures
        values.len() == 5,
        values[0] matches SqlValue::Text(s) && s@ == row.description@,
        values[1] matches SqlValue::Text(s) && s@ == row.status@,
        values[2] matches SqlValue::Text(s) && s@ == row.created_at@,
        values[3] matches SqlValue::Text(s) && s@ == row.updated_at@,
        match row.deadline {
            Some(text) => values[4] matches SqlValue::Text(s) && s@ == text@,
            None => values[4] is Null,
        },
{
    let mut values: Vec<SqlValue> = Vec::new();
    values.push(SqlValue::Text(row.description.clone()));
    values.push(SqlValue::Text(row.status.clone()));
    values.push(SqlValue::Text(row.created_at.clone()));
    values.push(SqlValue::Text(row.updated_at.clone()));
    values.push(
        match &row.deadline {
            Some(text) => SqlValue::Text(text.clone()),
            None => SqlValue::Null,
        },
    );
    values
}

/// The values that the update statement binds, in the order of its
/// placeholders: time of update, status, identity.
fn update_values(now: String, status: Status, id: i64) -> (values: Vec<SqlValue>)
    ensures
        values.len() == 3,
        values[0] matches SqlValue::Text(s) && s@ == now@,
        values[1] matches SqlValue::Text(s) && s@ == status.token_text(),
        values[2] matches SqlValue::Integer(i) && i == id,
{
    let mut values: Vec<SqlValue> = Vec::new();
    values.push(SqlValue::Text(now));
    values.push(SqlValue::Text(status.token().to_owned()));
    values.push(SqlValue::Integer(id));
    values
}

/// The value that the delete statement binds: the identity.
fn delete_values(id: i64) -> (values: Vec<SqlValue>)
    ensures
        values.len() == 1,
        values[0] matches SqlValue::Integer(i) && i == id,
{
    let mut values: Vec<SqlValue> = Vec::new();
    values.push(SqlValue::Integer(id));
    values
}

impl Database {
    /// Opens the store at its usual place, `./.rstd/data.db`. The directory
    /// has to exist.
    pub fn new() -> (r: Result<Database, AppError>)
        ensures
            r matches Err(e) ==> e is Db,
    {
        Database::open("./.rstd/data.db")
    }

    /// Opens the store in the file at `path`; `:memory:` gives a store that
    /// lives as long as the connection.
    pub fn open(path: &str) -> (r: Result<Database, AppError>)
        ensures
            r matches Err(e) ==> e is Db,
    {
        match open_connection(path) {
            Ok(connection) => Ok(Database { connection }),
            Err(e) => Err(AppError::Db(e)),
        }
    }

    /// Applies the schema scripts, given as one batch of statements.
    pub fn apply_migrations(&mut self, batch: &str) -> (r: Result<(), AppError>)
        ensures
            r matches Err(e) ==> e is Db,
    {
        match run_batch(&self.connection, batch) {
            Ok(()) => Ok(()),
            Err(e) => Err(AppError::Db(e)),
        }
    }

    /// Reads every stored task, in the order in which the store hands out its
    /// records.
    pub fn load_tasks(&self) -> (r: Result<Vec<Task>, AppError>)
        ensures
            r matches Ok(loaded) ==> exists|stored: Seq<TaskRow>| #[trigger]
                decoded_from(stored, loaded@),
            r matches Ok(loaded) ==> forall|i: int|
                0 <= i < loaded.len() ==> (#[trigger] loaded[i])@.is_encodable(),
            r matches Err(e) ==> e is Db || e is Decode,
            r matches Err(AppError::Decode(e)) ==> exists|stored: Seq<TaskRow>, i: int|
                #[trigger] fails_first_at(stored, i, e),
    {
        match query_task_rows(&self.connection, "SELECT * FROM tasks") {
            Ok(rows) => match decode_rows(&rows) {
                Ok(tasks) => {
                    let r: Result<Vec<Task>, AppError> = Ok(tasks);
                    assert(decoded_from(rows@, r->Ok_0@));
                    assert forall|i: int| 0 <= i < r->Ok_0.len() implies (
                    #[trigger] r->Ok_0[i])@.is_encodable() by {
                        lemma_decoded_is_encodable(rows[i], r->Ok_0[i]@);
                    }
                    r
                },
                Err(e) => {
                    proof {
                        let i = choose|i: int| #[trigger] fails_first_at(rows@, i, e);
                        assert(fails_first_at(rows@, i, e));
                    }
                    Err(AppError::Decode(e))
                },
            },
            Err(e) => Err(AppError::Db(e)),
        }
    }

    /// Stores a task as a new record. The store assigns its identity; the
    /// one in `t` is not written. A task with a timestamp that cannot be
    /// written is refused before the store is asked; any other task is
    /// handed to the store, which alone decides.
    pub fn insert_task(&mut self, t: &Task) -> (r: Result<(), AppError>)
        ensures
            r matches Err(AppError::Encode) <==> !t@.is_encodable(),
            r matches Err(e) ==> e is Db || e is Encode,
    {
        let row = match encode_row(t) {
            Some(row) => row,
            None => return Err(AppError::Encode),
        };
        let values = insert_values(&row);
        match run_statement(
            &self.connection,
            "INSERT INTO tasks (description, status, created_at, updated_at, deadline)
VALUES (?1, ?2, ?3, ?4, ?5);",
            &values,
        ) {
            Ok(_) => Ok(()),
            Err(e) => Err(AppError::Db(e)),
        }
    }

    /// Overwrites the status of the record with the identity of `t` and sets
    /// its time of update to the present. Does nothing for a task without
    /// identity.
    pub fn update_task(&mut self, t: &Task) -> (r: Result<(), AppError>)
        ensures
            t.id is None ==> r is Ok,
            r matches Err(e) ==> e is Db,
    {
        if let Some(id) = t.id {
            let now = rfc3339_local(clock_now()).unwrap();
            let values = update_values(now, t.status, id);
            if let Err(e) = run_statement(
                &self.connection,
                "UPDATE tasks SET updated_at = ?1, status = ?2 WHERE id = ?3",
                &values,
            ) {
                return Err(AppError::Db(e));
            }
        }
        Ok(())
    }

    /// Removes the record with the identity of `t`. Does nothing for a task
    /// without identity.
    pub fn delete_task(&mut self, t: &Task) -> (r: Result<(), AppError>)
        ensures
            t.id is None ==> r is Ok,
            r matches Err(e) ==> e is Db,
    {
        if let Some(id) = t.id {
            let values = delete_values(id);
            if let Err(e) = run_statement(
                &self.connection,
                "DELETE from tasks WHERE id = ?1",
                &values,
            ) {
                return Err(AppError::Db(e));
            }
        }
        Ok(())
    }
}

} // verus!
