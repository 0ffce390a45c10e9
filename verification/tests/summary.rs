use todo_domain::contracts::{Todo, TodoStatus};
use todo_domain::quiet::{plan_quiet_delivery, QuietWindow};
use todo_domain::summary::{
    due_morning_summary, format_summary_body, summary_counts, MorningSummaryPrefs, SummaryCounts,
};



/// A device on UTC — the offset the scheduler passes today.
const UTC: i64 = 0;

/// 2026-07-24T00:00:00Z, a UTC local midnight, so a minute-of-day maps to that
/// many minutes past this instant.
const MIDNIGHT: i64 = 1_784_851_200;

/// A Unix instant at `hour:minute` UTC on the midnight day above.
fn at(hour: i64, minute: i64) -> i64 {
    MIDNIGHT + (hour * 60 + minute) * 60
}

fn todo(id: &str) -> Todo {
    Todo {
        id: id.to_owned(),
        title: format!("task {id}"),
        status: TodoStatus::Open,
        created_at: "2026-07-01T00:00:00Z".to_owned(),
        completed_at: None,
        archived_at: None,
        due_date: None,
        reminders: Vec::new(),
        notes: None,
        start_date: None,
        starts_at: None,
        ends_at: None,
        estimated_minutes: None,
        recurrence: None,
        list_id: None,
        important: None,
        urgent: None,
        tag_ids: Vec::new(),
        subtasks: Vec::new(),
        attachments: Vec::new(),
        depends_on: Vec::new(),
        check_ins: Vec::new(),
    }
}

fn due(id: &str, due_date: &str) -> Todo {
    Todo {
        due_date: Some(due_date.to_owned()),
        ..todo(id)
    }
}

fn no_deliveries() -> Vec<(String, String)> {
    Vec::new()
}

fn on(time: &str) -> MorningSummaryPrefs {
    MorningSummaryPrefs {
        enabled: true,
        time: time.to_owned(),
    }
}

/// Today, for the fixtures: 2026-07-24. A task due on this date is "due today",
/// one due earlier is "overdue".
fn one_due_today_and_one_overdue() -> Vec<Todo> {
    vec![due("a", "2026-07-24"), due("b", "2026-07-20")]
}

#[test]
fn the_summary_fires_at_its_time_with_a_body_of_the_non_zero_counts() {
    let todos = one_due_today_and_one_overdue();
    // A minute before 09:00: not yet.
    assert!(
        due_morning_summary(&todos, &no_deliveries(), &on("09:00"), at(8, 59), UTC).is_none()
    );
    // On the dot it fires, and the body counts both segments.
    let summary = due_morning_summary(&todos, &no_deliveries(), &on("09:00"), at(9, 0), UTC)
        .expect("the summary is due at 09:00");
    assert_eq!(summary.title, "今日待办概览");
    assert_eq!(summary.body, "今日到期 1 条 · 逾期 1 条。");
    assert_eq!(summary.reminder_at, "summary:2026-07-24");
    assert_eq!(summary.todo_id, "morning-summary");
}

#[test]
fn a_summary_already_sent_today_is_not_sent_again() {
    let todos = one_due_today_and_one_overdue();
    let first = due_morning_summary(&todos, &no_deliveries(), &on("09:00"), at(9, 0), UTC)
        .expect("the first summary of the day");

    // The same key recorded: a later poll the same day raises nothing.
    let delivered: Vec<(String, String)> =
        [(first.todo_id.clone(), first.reminder_at.clone())]
            .into_iter()
            .collect();
    assert!(
        due_morning_summary(&todos, &delivered, &on("09:00"), at(9, 30), UTC).is_none(),
        "the day's summary is once and done"
    );
    assert!(
        due_morning_summary(&todos, &delivered, &on("09:00"), at(18, 0), UTC).is_none(),
        "still nothing later the same day"
    );
}

#[test]
fn the_next_local_day_is_a_fresh_summary() {
    // The key is the local date, so a new day is a key the previous day's
    // delivery does not cover — and the count is re-read for the new day, so
    // yesterday's "due today" task is today's "overdue".
    let todos = vec![due("a", "2026-07-24")];
    let yesterday =
        due_morning_summary(&todos, &no_deliveries(), &on("09:00"), at(9, 0), UTC).unwrap();
    let delivered: Vec<(String, String)> =
        [(yesterday.todo_id.clone(), yesterday.reminder_at.clone())]
            .into_iter()
            .collect();

    // A day on, at 09:00 on the 25th: a fresh key, and the task that was due
    // on the 24th now counts as overdue.
    let today = due_morning_summary(&todos, &delivered, &on("09:00"), at(33, 0), UTC)
        .expect("a new day's summary is due");
    assert_eq!(today.reminder_at, "summary:2026-07-25");
    assert_eq!(today.body, "逾期 1 条。");
}

#[test]
fn an_all_zero_morning_sends_nothing() {
    // Nothing due today, nothing overdue: no summary, so an empty morning is
    // silence rather than a daily "all clear".
    let clear = vec![due("a", "2026-08-01"), todo("b")];
    assert!(
        due_morning_summary(&clear, &no_deliveries(), &on("09:00"), at(9, 0), UTC).is_none()
    );
}

#[test]
fn the_switch_being_off_sends_nothing() {
    let todos = one_due_today_and_one_overdue();
    let off = MorningSummaryPrefs {
        enabled: false,
        time: "09:00".to_owned(),
    };
    assert!(due_morning_summary(&todos, &no_deliveries(), &off, at(9, 0), UTC).is_none());
}

#[test]
fn an_unreadable_time_leaves_the_summary_unscheduled() {
    // A hand-edited settings file: the strict "HH:mm" reader returns nothing,
    // so the summary stays silent rather than firing at a guessed hour.
    let todos = one_due_today_and_one_overdue();
    for bad in ["9:00", "24:00", "", "0900"] {
        assert!(
            due_morning_summary(&todos, &no_deliveries(), &on(bad), at(23, 0), UTC).is_none(),
            "an unreadable time ({bad}) schedules nothing"
        );
    }
}

#[test]
fn a_summary_scheduled_inside_the_quiet_window_is_held_until_it_ends() {
    // The correctness requirement from 提醒通知/05: a summary set to 07:00 with
    // a 22:00–08:00 quiet window must not break "no notification inside the
    // window". The summary is quiet-agnostic here — it returns due — and the
    // scheduler rides the same quiet plan the reminders do. A one-item plan
    // never summarises, so the summary is never folded into the quiet re-push.
    let window = QuietWindow::parse("22:00", "08:00");
    let held = vec![due("a", "2026-07-24")];

    // 07:30, inside the window: due here, but the plan holds it (delivers
    // nothing, records nothing), so a later poll re-derives it.
    let summary = due_morning_summary(&held, &no_deliveries(), &on("07:00"), at(7, 30), UTC)
        .expect("the summary is due at 07:30");
    let held_plan = plan_quiet_delivery(&[summary.scheduled_unix], window, at(7, 30), UTC);
    assert!(
        held_plan.deliver.is_empty() && held_plan.summarize.is_empty(),
        "inside the window the summary is held, not raised"
    );

    // 08:00, the window has ended: the summary is delivered on its own (never
    // summarised), and its body reflects the flush moment's counts — a second
    // task has since gone overdue, so the flushed summary counts it.
    let flushed = vec![due("a", "2026-07-24"), due("b", "2026-07-20")];
    let at_flush = due_morning_summary(&flushed, &no_deliveries(), &on("07:00"), at(8, 0), UTC)
        .expect("the summary is still due at the flush");
    let flush_plan = plan_quiet_delivery(&[at_flush.scheduled_unix], window, at(8, 0), UTC);
    assert_eq!(flush_plan.deliver, vec![0]);
    assert!(flush_plan.summarize.is_empty(), "one item is never a summary");
    // Re-computed at the flush: both the still-due and the newly-overdue task.
    assert_eq!(at_flush.body, "今日到期 1 条 · 逾期 1 条。");
}

#[test]
fn the_counts_match_the_lists_badges_not_the_renag_gate() {
    // Completed, archived, and no-due-date tasks are off the count, and a
    // task locked behind a prerequisite is still counted — the summary answers
    // "what is on my plate today", which is what the list's badges show, not
    // the stricter set a renag would nag.
    let mut completed = due("done", "2026-07-24");
    completed.status = TodoStatus::Completed;
    completed.completed_at = Some("2026-07-24T08:00:00Z".to_owned());
    let mut archived = due("filed", "2026-07-20");
    archived.archived_at = Some("2026-07-24T00:00:00Z".to_owned());
    let mut locked = due("blocked", "2026-07-24");
    locked.depends_on = vec!["gate".to_owned()];

    let todos = vec![
        due("today", "2026-07-24"),
        due("late", "2026-07-19"),
        locked,
        completed,
        archived,
        todo("no-deadline"),
    ];
    let counts = summary_counts(&todos, at(9, 0), UTC);
    // "today" and the locked task are both due today; "late" is overdue; the
    // completed, archived and no-due-date tasks count for nothing.
    assert_eq!(counts.due_today, 2);
    assert_eq!(counts.overdue, 1);
    assert_eq!(counts.my_day, None);
}

#[test]
fn the_body_drops_zero_segments_and_omits_the_absent_my_day() {
    // Overdue work but nothing due today: the zero segment is dropped.
    let overdue_only = SummaryCounts {
        due_today: 0,
        overdue: 2,
        my_day: None,
    };
    assert_eq!(format_summary_body(&overdue_only), "逾期 2 条。");

    // Due today but nothing overdue, and my_day still without a source.
    let due_only = SummaryCounts {
        due_today: 3,
        overdue: 0,
        my_day: None,
    };
    assert_eq!(format_summary_body(&due_only), "今日到期 3 条。");
}

#[test]
fn the_my_day_segment_joins_the_body_once_its_source_lands() {
    // The seam 视图与统计/06 fills: a Some my-day count adds the third segment,
    // with no other change to the body's shape.
    let all_three = SummaryCounts {
        due_today: 3,
        overdue: 2,
        my_day: Some(5),
    };
    assert_eq!(format_summary_body(&all_three), "今日到期 3 条 · 逾期 2 条 · 我的一天 5 条。");
    // A zero my-day count is dropped like any other zero segment.
    let empty_my_day = SummaryCounts {
        due_today: 1,
        overdue: 0,
        my_day: Some(0),
    };
    assert_eq!(format_summary_body(&empty_my_day), "今日到期 1 条。");
}

#[test]
fn a_device_east_of_utc_reads_its_own_morning() {
    // Eight hours east, 01:00 UTC is 09:00 local on the 24th.
    let todos = vec![due("a", "2026-07-24")];
    let summary = due_morning_summary(&todos, &no_deliveries(), &on("09:00"), at(1, 0), 8 * 3_600)
        .expect("09:00 local has come");
    assert_eq!(summary.reminder_at, "summary:2026-07-24");
    assert_eq!(summary.scheduled_unix, at(1, 0));
    assert_eq!(summary.body, "今日到期 1 条。");
    assert!(
        due_morning_summary(&todos, &no_deliveries(), &on("09:00"), at(0, 59), 8 * 3_600).is_none()
    );
}

#[test]
fn an_all_zero_count_is_empty() {
    let counts = SummaryCounts { due_today: 0, overdue: 0, my_day: None };
    assert!(counts.is_empty());
    let counts = SummaryCounts { due_today: 0, overdue: 0, my_day: Some(1) };
    assert!(!counts.is_empty());
}

#[test]
fn a_zone_offset_far_from_zero_reads_a_local_day_rather_than_being_refused() {
    let counts = summary_counts(&one_due_today_and_one_overdue(), 0, 2_000_000_000_000);
    // Tens of thousands of years on, both tasks are overdue.
    assert_eq!((counts.due_today, counts.overdue), (0, 2));
    let summary = due_morning_summary(&one_due_today_and_one_overdue(), &no_deliveries(), &on("00:00"), 0, 2_000_000_000_000)
        .expect("a summary of two overdue tasks");
    assert!(summary.reminder_at.starts_with("summary:"));
}
