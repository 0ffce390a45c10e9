use todo_domain::civil::{days_from_civil, parse_date};
use todo_domain::contracts::{Reminder, Todo, TodoStatus};
use todo_domain::renag::{due_renags, HOUR, SECONDS_PER_DAY};
use todo_domain::scheduler::{poll_notices, OVERDUE_GRACE_SECONDS, POLL_INTERVAL_SECONDS};

fn todo(id: &str) -> Todo {
    Todo {
        id: id.to_owned(),
        title: format!("task {id}"),
        status: TodoStatus::Open,
        created_at: "2026-07-01T00:00:00Z".to_owned(),
        completed_at: None,
        archived_at: None,
        due_date: Some("2026-07-24".to_owned()),
        reminders: vec![Reminder { at: "2026-07-25T00:59:30Z".to_owned(), offset: 0 }],
        notes: None,
        start_date: None,
        starts_at: None,
        ends_at: None,
        estimated_minutes: None,
        recurrence: None,
        list_id: None,
        important: None,
        urgent: None,
        tag_ids: Vec::new(),
        subtasks: Vec::new(),
        attachments: Vec::new(),
        depends_on: Vec::new(),
        check_ins: Vec::new(),
    }
}

/// An hour after 2026-07-24 turned over in UTC: the first nag is due, and the
/// reminder set half a minute earlier has just come due.
fn an_hour_into_the_next_day() -> i64 {
    (days_from_civil(parse_date("2026-07-24").expect("a readable date")) + 1) * SECONDS_PER_DAY + HOUR
}

#[test]
fn a_pass_raises_the_reminder_and_then_the_nag() {
    let now = an_hour_into_the_next_day();
    let notices = poll_notices(&[todo("a")], &[], now, true);
    assert_eq!(notices.len(), 2);

    assert_eq!(notices[0].todo_id, "a");
    assert_eq!(notices[0].delivery_key, "2026-07-25T00:59:30Z");
    assert_eq!(notices[0].title, "task a");
    assert_eq!(notices[0].body, "截止日：2026-07-24");

    let nag = &due_renags(&[todo("a")], &[], now, 0)[0];
    assert_eq!(notices[1].todo_id, "a");
    assert_eq!(notices[1].delivery_key, nag.reminder_at);
    assert!(notices[1].delivery_key.starts_with("renag:"));
    assert_eq!(notices[1].title, "逾期未完成 · task a");
    assert_eq!(notices[1].body, "已逾期 1 天，完成后不再提醒。");
}

#[test]
fn with_nagging_switched_off_only_the_reminder_goes_out() {
    let notices = poll_notices(&[todo("a")], &[], an_hour_into_the_next_day(), false);
    assert_eq!(notices.len(), 1);
    assert_eq!(notices[0].delivery_key, "2026-07-25T00:59:30Z");
}

#[test]
fn a_reminder_raised_late_is_marked_overdue() {
    let late = an_hour_into_the_next_day() + OVERDUE_GRACE_SECONDS;
    let notices = poll_notices(&[todo("a")], &[], late, false);
    assert_eq!(notices[0].title, "【逾期】task a");
}

#[test]
fn what_a_pass_recorded_is_not_raised_by_the_next() {
    let now = an_hour_into_the_next_day();
    let first = poll_notices(&[todo("a")], &[], now, true);
    let recorded: Vec<(String, String)> = first
        .iter()
        .map(|notice| (notice.todo_id.clone(), notice.delivery_key.clone()))
        .collect();
    let next = now + POLL_INTERVAL_SECONDS as i64;
    assert!(poll_notices(&[todo("a")], &recorded, next, true).is_empty());
}
