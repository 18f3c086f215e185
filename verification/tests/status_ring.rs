use taskboard::task::{Status, Task};
use taskboard::time::Timestamp;

fn five_stages() -> [Status; 5] {
    [Status::Backlog, Status::Today, Status::InProgress, Status::Done, Status::Archived]
}

#[test]
fn next_walks_the_ring_in_order() {
    assert_eq!(Status::Backlog.next(), Status::Today);
    assert_eq!(Status::Today.next(), Status::InProgress);
    assert_eq!(Status::InProgress.next(), Status::Done);
    assert_eq!(Status::Done.next(), Status::Archived);
    assert_eq!(Status::Archived.next(), Status::Backlog);
}

#[test]
fn prev_walks_the_ring_backwards() {
    assert_eq!(Status::Backlog.prev(), Status::Archived);
    assert_eq!(Status::Today.prev(), Status::Backlog);
    assert_eq!(Status::InProgress.prev(), Status::Today);
    assert_eq!(Status::Done.prev(), Status::InProgress);
    assert_eq!(Status::Archived.prev(), Status::Done);
}

#[test]
fn next_and_prev_undo_each_other() {
    for s in five_stages() {
        assert_eq!(s.next().prev(), s);
        assert_eq!(s.prev().next(), s);
    }
}

#[test]
fn five_steps_return_to_the_start() {
    for s in five_stages() {
        assert_eq!(s.next().next().next().next().next(), s);
        assert_eq!(s.prev().prev().prev().prev().prev(), s);
    }
}

#[test]
fn all_lists_the_stages_in_ring_order() {
    assert_eq!(Status::all(), five_stages());
}

#[test]
fn tokens_are_the_stored_names() {
    assert_eq!(Status::Backlog.token(), "backlog");
    assert_eq!(Status::Today.token(), "today");
    assert_eq!(Status::InProgress.token(), "in_progress");
    assert_eq!(Status::Done.token(), "done");
    assert_eq!(Status::Archived.token(), "archived");
}

#[test]
fn tokens_read_back_as_their_stage() {
    for s in five_stages() {
        assert_eq!(Status::from_token(s.token()), Some(s));
    }
}

#[test]
fn unknown_tokens_name_no_stage() {
    assert_eq!(Status::from_token(""), None);
    assert_eq!(Status::from_token("Backlog"), None);
    assert_eq!(Status::from_token("in progress"), None);
    assert_eq!(Status::from_token("done "), None);
    assert_eq!(Status::from_token("BACKLOG"), None);
}

#[test]
fn labels_are_the_headings() {
    assert_eq!(Status::Backlog.label(), "BACKLOG");
    assert_eq!(Status::Today.label(), "TODAY");
    assert_eq!(Status::InProgress.label(), "IN PROGRESS");
    assert_eq!(Status::Done.label(), "DONE");
    assert_eq!(Status::Archived.label(), "ARCHIVED");
}

#[test]
fn new_task_defaults_to_backlog_without_identity() {
    let t = Task::new("Buy milk".to_string(), None, None);
    assert_eq!(t.id, None);
    assert_eq!(t.status, Status::Backlog);
    assert_eq!(t.description, "Buy milk");
    assert_eq!(t.created_at, t.updated_at);
    assert_eq!(t.deadline, None);
}

#[test]
fn new_task_keeps_given_stage_and_deadline() {
    let due = Timestamp { secs: 1_924_423_200, nanos: 0 };
    let t = Task::new(String::new(), Some(Status::Done), Some(due));
    assert_eq!(t.status, Status::Done);
    assert_eq!(t.deadline, Some(due));
    assert_eq!(t.description, "");
}

#[test]
fn new_task_is_stamped_with_the_present() {
    let before = chrono::Utc::now().timestamp();
    let t = Task::new("now".to_string(), None, None);
    let after = chrono::Utc::now().timestamp();
    assert!(before <= t.created_at.secs && t.created_at.secs <= after);
}

#[test]
fn new_at_stamps_both_times_with_the_given_instant() {
    let now = Timestamp { secs: 42, nanos: 7 };
    let t = Task::new_at("a\nb".to_string(), Some(Status::Today), None, now);
    assert_eq!(t.created_at, now);
    assert_eq!(t.updated_at, now);
    assert_eq!(t.description, "a\nb");
    assert_eq!(t.status, Status::Today);
    assert_eq!(t.id, None);
}

#[test]
fn with_status_changes_the_stage_only() {
    let now = Timestamp { secs: 42, nanos: 7 };
    let mut t = Task::new_at("x".to_string(), None, Some(now), now);
    t.id = Some(9);
    let moved = t.with_status(Status::Archived);
    assert_eq!(moved.status, Status::Archived);
    assert_eq!(moved.id, Some(9));
    assert_eq!(moved.description, "x");
    assert_eq!(moved.created_at, now);
    assert_eq!(moved.updated_at, now);
    assert_eq!(moved.deadline, Some(now));
    assert_eq!(t.status, Status::Backlog);
}
