use taskboard::db::{assemble, decode_row, decode_rows, encode_row, TaskRow};
use taskboard::error::DecodeError;
use taskboard::task::{Status, Task};
use taskboard::time::Timestamp;

fn stored_row(status: &str, created: &str, updated: &str, deadline: Option<&str>) -> TaskRow {
    TaskRow {
        id: Some(3),
        description: "Write report".to_string(),
        status: status.to_string(),
        created_at: created.to_string(),
        updated_at: updated.to_string(),
        deadline: deadline.map(|d| d.to_string()),
    }
}

#[test]
fn assemble_makes_the_task_of_its_parts() {
    let c = Timestamp { secs: 10, nanos: 0 };
    let u = Timestamp { secs: 20, nanos: 5 };
    let d = Timestamp { secs: 30, nanos: 0 };
    let t = assemble(Some(1), "x".to_string(), "in_progress", Some(c), Some(u), Some(Some(d)))
        .unwrap();
    assert_eq!(t.id, Some(1));
    assert_eq!(t.description, "x");
    assert_eq!(t.status, Status::InProgress);
    assert_eq!(t.created_at, c);
    assert_eq!(t.updated_at, u);
    assert_eq!(t.deadline, Some(d));
}

#[test]
fn assemble_without_deadline_has_none() {
    let c = Timestamp { secs: 10, nanos: 0 };
    let t = assemble(None, String::new(), "done", Some(c), Some(c), None).unwrap();
    assert_eq!(t.deadline, None);
    assert_eq!(t.id, None);
    assert_eq!(t.status, Status::Done);
}

#[test]
fn assemble_rejects_an_unknown_status() {
    let c = Timestamp { secs: 10, nanos: 0 };
    let r = assemble(Some(1), "x".to_string(), "later", Some(c), Some(c), None);
    assert_eq!(r.err(), Some(DecodeError::UnknownStatus));
}

#[test]
fn assemble_rejects_a_missing_timestamp() {
    let c = Timestamp { secs: 10, nanos: 0 };
    let r = assemble(Some(1), "x".to_string(), "done", None, Some(c), None);
    assert_eq!(r.err(), Some(DecodeError::BadTimestamp));
    let r = assemble(Some(1), "x".to_string(), "done", Some(c), None, None);
    assert_eq!(r.err(), Some(DecodeError::BadTimestamp));
    let r = assemble(Some(1), "x".to_string(), "done", Some(c), Some(c), Some(None));
    assert_eq!(r.err(), Some(DecodeError::BadTimestamp));
}

#[test]
fn assemble_reports_the_timestamp_before_the_status() {
    let r = assemble(Some(1), "x".to_string(), "later", None, None, None);
    assert_eq!(r.err(), Some(DecodeError::BadTimestamp));
}

#[test]
fn decode_row_reads_strict_timestamps() {
    let row = stored_row(
        "today",
        "1970-01-01T00:00:10+00:00",
        "1970-01-01T00:00:20+00:00",
        Some("1970-01-02T00:00:00+00:00"),
    );
    let t = decode_row(&row).unwrap();
    assert_eq!(t.id, Some(3));
    assert_eq!(t.description, "Write report");
    assert_eq!(t.status, Status::Today);
    assert_eq!(t.created_at, Timestamp { secs: 10, nanos: 0 });
    assert_eq!(t.updated_at, Timestamp { secs: 20, nanos: 0 });
    assert_eq!(t.deadline, Some(Timestamp { secs: 86_400, nanos: 0 }));
}

#[test]
fn decode_row_accepts_the_legacy_format() {
    let row = stored_row("backlog", "2024-05-01 08:30:00", "2024-05-01 08:30:00", None);
    let t = decode_row(&row).unwrap();
    assert_eq!(t.created_at, t.updated_at);
    assert_eq!(t.deadline, None);
}

#[test]
fn decode_row_rejects_an_unknown_status() {
    let row = stored_row("waiting", "1970-01-01T00:00:10+00:00", "1970-01-01T00:00:10+00:00", None);
    assert_eq!(decode_row(&row).err(), Some(DecodeError::UnknownStatus));
}

#[test]
fn decode_row_rejects_unreadable_timestamps() {
    let good = "1970-01-01T00:00:10+00:00";
    let row = stored_row("done", "soon", good, None);
    assert_eq!(decode_row(&row).err(), Some(DecodeError::BadTimestamp));
    let row = stored_row("done", good, "", None);
    assert_eq!(decode_row(&row).err(), Some(DecodeError::BadTimestamp));
    let row = stored_row("done", good, good, Some("25/12/2030"));
    assert_eq!(decode_row(&row).err(), Some(DecodeError::BadTimestamp));
}

#[test]
fn decode_rows_keeps_the_order() {
    let good = "1970-01-01T00:00:10+00:00";
    let mut a = stored_row("done", good, good, None);
    a.id = Some(1);
    let mut b = stored_row("today", good, good, None);
    b.id = Some(2);
    let tasks = decode_rows(&vec![b, a]).unwrap();
    assert_eq!(tasks.len(), 2);
    assert_eq!(tasks[0].id, Some(2));
    assert_eq!(tasks[0].status, Status::Today);
    assert_eq!(tasks[1].id, Some(1));
    assert_eq!(tasks[1].status, Status::Done);
}

#[test]
fn decode_rows_of_nothing_is_nothing() {
    assert_eq!(decode_rows(&Vec::new()).unwrap().len(), 0);
}

#[test]
fn decode_rows_stops_at_the_first_bad_row() {
    let good = "1970-01-01T00:00:10+00:00";
    let rows = vec![
        stored_row("done", good, good, None),
        stored_row("nope", good, good, None),
        stored_row("done", "bad", good, None),
    ];
    assert_eq!(decode_rows(&rows).err(), Some(DecodeError::UnknownStatus));
}

#[test]
fn encode_row_writes_token_and_texts() {
    let now = Timestamp { secs: 1_700_000_000, nanos: 0 };
    let mut t = Task::new_at("Pay rent".to_string(), Some(Status::InProgress), None, now);
    t.id = Some(12);
    let row = encode_row(&t).unwrap();
    assert_eq!(row.id, Some(12));
    assert_eq!(row.description, "Pay rent");
    assert_eq!(row.status, "in_progress");
    assert_eq!(row.deadline, None);
    assert_eq!(
        chrono::DateTime::parse_from_rfc3339(&row.created_at).unwrap().timestamp(),
        1_700_000_000
    );
    assert_eq!(row.created_at, row.updated_at);
}

#[test]
fn encode_then_decode_gives_the_task_back() {
    let now = Timestamp { secs: 1_700_000_000, nanos: 123_456_789 };
    let due = Timestamp { secs: 1_924_423_200, nanos: 0 };
    let mut t = Task::new_at("Line one\nline two".to_string(), Some(Status::Archived), Some(due), now);
    t.id = Some(5);
    t.updated_at = Timestamp { secs: 1_700_000_100, nanos: 1 };
    let back = decode_row(&encode_row(&t).unwrap()).unwrap();
    assert_eq!(back.id, t.id);
    assert_eq!(back.description, t.description);
    assert_eq!(back.status, t.status);
    assert_eq!(back.created_at, t.created_at);
    assert_eq!(back.updated_at, t.updated_at);
    assert_eq!(back.deadline, t.deadline);
}

#[test]
fn encode_row_refuses_an_instant_out_of_range() {
    let far = Timestamp { secs: i64::MAX, nanos: 0 };
    let t = Task::new_at("x".to_string(), None, None, far);
    assert!(encode_row(&t).is_none());
    let odd = Timestamp { secs: 0, nanos: 2_000_000_000 };
    let t = Task::new_at("x".to_string(), None, Some(odd), Timestamp { secs: 0, nanos: 0 });
    assert!(encode_row(&t).is_none());
}
