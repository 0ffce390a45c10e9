use todo_domain::civil::{days_from_civil, parse_date};
use todo_domain::contracts::{Todo, TodoStatus};
use todo_domain::renag::{
    due_renags, latest_renag_offset, renag_occurrence_unix, RenagDue, HOUR, SECONDS_PER_DAY,
};

const RENAG_KEY_PREFIX: &str = "renag:";


/// A device on UTC — the offset the scheduler passes today. The tests that
/// are about the zone name their own.
const UTC: i64 = 0;

fn todo(id: &str) -> Todo {
    Todo {
        id: id.to_owned(),
        title: format!("task {id}"),
        status: TodoStatus::Open,
        created_at: "2026-07-01T00:00:00Z".to_owned(),
        completed_at: None,
        archived_at: None,
        due_date: None,
        reminders: Vec::new(),
        notes: None,
        start_date: None,
        starts_at: None,
        ends_at: None,
        estimated_minutes: None,
        recurrence: None,
        list_id: None,
        important: None,
        urgent: None,
        tag_ids: Vec::new(),
        subtasks: Vec::new(),
        attachments: Vec::new(),
        depends_on: Vec::new(),
        check_ins: Vec::new(),
    }
}

fn overdue(id: &str, due_date: &str) -> Todo {
    Todo {
        due_date: Some(due_date.to_owned()),
        ..todo(id)
    }
}

fn no_deliveries() -> Vec<(String, String)> {
    Vec::new()
}

fn ids(due: &[RenagDue]) -> Vec<&str> {
    due.iter().map(|renag| renag.todo_id.as_str()).collect()
}

/// The instant a task with this due date turns overdue, in the given zone —
/// the anchor the nags count from.
fn anchor(due_date: &str, zone_offset_seconds: i64) -> i64 {
    (days_from_civil(parse_date(due_date).expect("a readable due date")) + 1) * SECONDS_PER_DAY
        - zone_offset_seconds
}

#[test]
fn a_task_not_yet_overdue_is_never_nagged() {
    let todos = vec![overdue("a", "2026-07-24")];
    let anchor = anchor("2026-07-24", UTC);
    // A second before the day turns over: still due, not overdue.
    assert!(due_renags(&todos, &no_deliveries(), anchor - 1, UTC).is_empty());
    // Exactly at the boundary it is overdue, but the first nag is an hour off:
    // the deadline reminder and the first nag do not land together.
    assert!(due_renags(&todos, &no_deliveries(), anchor, UTC).is_empty());
    assert!(due_renags(&todos, &no_deliveries(), anchor + HOUR - 1, UTC).is_empty());
}

#[test]
fn the_first_nag_lands_an_hour_after_the_deadline_day_turns_over() {
    let todos = vec![overdue("a", "2026-07-24")];
    let anchor = anchor("2026-07-24", UTC);

    let due = due_renags(&todos, &no_deliveries(), anchor + HOUR, UTC);
    assert_eq!(ids(&due), vec!["a"]);
    // Overdue since the day turned over: one whole local day past the deadline.
    assert_eq!(due[0].days_overdue, 1);
    assert!(due[0].reminder_at.starts_with(RENAG_KEY_PREFIX));
}

#[test]
fn a_nag_already_delivered_is_not_raised_again() {
    let todos = vec![overdue("a", "2026-07-24")];
    let anchor = anchor("2026-07-24", UTC);
    let first = due_renags(&todos, &no_deliveries(), anchor + HOUR, UTC);
    let key = first[0].reminder_at.clone();

    // The same nag key recorded: a later poll within the same step raises
    // nothing, the whole point of the delivery set.
    let delivered: Vec<(String, String)> = [("a".to_owned(), key)].into_iter().collect();
    assert!(due_renags(&todos, &delivered, anchor + HOUR, UTC).is_empty());
    // Still nothing halfway to the next step.
    assert!(due_renags(&todos, &delivered, anchor + 2 * HOUR, UTC).is_empty());
}

#[test]
fn the_front_loaded_steps_each_raise_a_nag_of_their_own() {
    let todos = vec![overdue("a", "2026-07-24")];
    let anchor = anchor("2026-07-24", UTC);
    // The four front-loaded nags land at +1h, +3h, +7h, +15h and no sooner.
    let mut keys = Vec::new();
    for step in [HOUR, 3 * HOUR, 7 * HOUR, 15 * HOUR] {
        let due = due_renags(&todos, &no_deliveries(), anchor + step, UTC);
        assert_eq!(ids(&due), vec!["a"], "a nag is due at +{}h", step / HOUR);
        keys.push(due[0].reminder_at.clone());
    }
    // Each step is a distinct delivery, so none of them dedup against another.
    keys.sort();
    keys.dedup();
    assert_eq!(keys.len(), 4, "the four front-loaded nags are four keys");
}

#[test]
fn once_the_front_is_spent_it_caps_at_one_nag_a_day() {
    let todos = vec![overdue("a", "2026-07-24")];
    let anchor = anchor("2026-07-24", UTC);

    // The first daily nag is 24h after the last front-loaded step (15h) — at
    // +39h — and nothing new lands in the gap after the fourth step.
    let fourth = due_renags(&todos, &no_deliveries(), anchor + 15 * HOUR, UTC);
    let fourth_key = fourth[0].reminder_at.clone();
    let delivered: Vec<(String, String)> =
        [("a".to_owned(), fourth_key.clone())].into_iter().collect();
    // 20 hours after the fourth step: past it, but the daily nag (at +39h) is
    // not due yet, so the fourth nag holds and raises nothing new.
    assert!(due_renags(&todos, &delivered, anchor + 35 * HOUR, UTC).is_empty());

    // At +39h the first daily nag is due, and it is a new key.
    let daily = due_renags(&todos, &delivered, anchor + 39 * HOUR, UTC);
    assert_eq!(ids(&daily), vec!["a"]);
    assert_ne!(daily[0].reminder_at, fourth_key);
    assert_eq!(daily[0].days_overdue, 2);

    // A day on from that, at +63h, the next daily nag is due — one a day, no
    // hard stop.
    let recorded: Vec<(String, String)> = [
        ("a".to_owned(), fourth_key),
        ("a".to_owned(), daily[0].reminder_at.clone()),
    ]
    .into_iter()
    .collect();
    assert!(due_renags(&todos, &recorded, anchor + 62 * HOUR, UTC).is_empty());
    let next_day = due_renags(&todos, &recorded, anchor + 63 * HOUR, UTC);
    assert_eq!(ids(&next_day), vec!["a"]);
    assert_ne!(next_day[0].reminder_at, daily[0].reminder_at);
}

#[test]
fn a_gap_across_several_overdue_days_catches_up_with_one_nag_not_a_burst() {
    // The app was closed for days while the task stayed overdue. On the next
    // poll it must raise the current nag only — not every one it slept
    // through — which is what "capped at one a day" has to mean across
    // downtime.
    let todos = vec![overdue("a", "2026-07-24")];
    let anchor = anchor("2026-07-24", UTC);

    let due = due_renags(&todos, &no_deliveries(), anchor + 100 * HOUR, UTC);
    assert_eq!(due.len(), 1, "one catch-up nag, not a backlog: {:?}", ids(&due));
    assert_eq!(ids(&due), vec!["a"]);
    // 100h overdue is into the fifth local day past the deadline.
    assert_eq!(due[0].days_overdue, 5);
}

#[test]
fn completing_or_archiving_a_task_stops_the_nagging() {
    let mut done = overdue("a", "2026-07-24");
    done.status = TodoStatus::Completed;
    done.completed_at = Some("2026-07-25T09:00:00Z".to_owned());
    let mut archived = overdue("b", "2026-07-24");
    archived.archived_at = Some("2026-07-25T00:00:00Z".to_owned());

    let anchor = anchor("2026-07-24", UTC);
    let due = due_renags(&[done, archived], &no_deliveries(), anchor + 10 * HOUR, UTC);
    assert!(due.is_empty(), "{:?}", ids(&due));
}

#[test]
fn a_task_without_a_readable_due_date_is_never_nagged() {
    // No due date at all — a reminder-only task has no deadline to be overdue
    // against — and a due date this build cannot read: neither nags.
    let plain = todo("a");
    let mut reminded_only = todo("b");
    reminded_only.reminders = vec![todo_domain::contracts::Reminder {
        at: "2026-07-24T09:00:00Z".to_owned(),
        offset: 0,
    }];
    let unreadable = overdue("c", "sometime last week");

    let far_future = anchor("2026-07-24", UTC) + 1_000 * HOUR;
    let due = due_renags(
        &[plain, reminded_only, unreadable],
        &no_deliveries(),
        far_future,
        UTC,
    );
    assert!(due.is_empty(), "{:?}", ids(&due));
}

#[test]
fn a_locked_task_holds_its_nagging_until_the_prerequisite_is_done() {
    let mut blocked = overdue("a", "2026-07-24");
    blocked.depends_on = vec!["gate".to_owned()];
    let anchor = anchor("2026-07-24", UTC);

    // While the prerequisite is open, the blocked task nags nothing even
    // though its deadline has passed.
    let gate_open = overdue("gate", "2026-07-24");
    let locked = due_renags(
        &[gate_open, blocked.clone()],
        &no_deliveries(),
        anchor + 10 * HOUR,
        UTC,
    );
    // Only the prerequisite itself, overdue and open, nags.
    assert_eq!(ids(&locked), vec!["gate"]);

    // Complete the prerequisite: the blocked task unlocks and its nagging
    // catches up.
    let mut gate_done = overdue("gate", "2026-07-24");
    gate_done.status = TodoStatus::Completed;
    gate_done.completed_at = Some("2026-07-25T08:00:00Z".to_owned());
    let unlocked = due_renags(
        &[gate_done, blocked],
        &no_deliveries(),
        anchor + 10 * HOUR,
        UTC,
    );
    assert_eq!(ids(&unlocked), vec!["a"]);
}

#[test]
fn the_overdue_anchor_follows_the_zone_offset() {
    // The same due date turns overdue at different instants depending on where
    // the device is: local midnight of the following day. East of UTC that
    // instant is earlier in UTC; west of UTC it is later. The rule reads the
    // boundary through the offset it is handed, which is the seam 提醒通知/07
    // completes by feeding the device's real offset.
    let todos = vec![overdue("a", "2026-07-24")];
    let east = 8 * HOUR; // UTC+8
    let west = -8 * HOUR; // UTC-8

    // An instant that is an hour past the east anchor but still before the
    // west one: nagged for the eastern device, silent for the western.
    let east_first_nag = anchor("2026-07-24", east) + HOUR;
    assert_eq!(
        ids(&due_renags(&todos, &no_deliveries(), east_first_nag, east)),
        vec!["a"],
    );
    assert!(
        due_renags(&todos, &no_deliveries(), east_first_nag, west).is_empty(),
        "west of UTC the day has not turned over yet"
    );

    // The western device reaches its own first nag 16 hours later.
    let west_first_nag = anchor("2026-07-24", west) + HOUR;
    assert_eq!(west_first_nag - east_first_nag, 16 * HOUR);
    assert_eq!(
        ids(&due_renags(&todos, &no_deliveries(), west_first_nag, west)),
        vec!["a"],
    );
}

#[test]
fn a_renag_key_reads_back_to_the_instant_it_was_built_from() {
    // The key 提醒通知/05 places against the quiet window is the one this pass
    // wrote, so the two agree on the nag's moment.
    let todos = vec![overdue("a", "2026-07-24")];
    let anchor = anchor("2026-07-24", UTC);
    let occurrence = anchor + HOUR;
    let due = due_renags(&todos, &no_deliveries(), occurrence, UTC);
    assert_eq!(renag_occurrence_unix(&due[0].reminder_at), Some(occurrence));
    // A real reminder instant is not a renag key.
    assert_eq!(renag_occurrence_unix("2026-07-24T09:00:00Z"), None);
    assert_eq!(renag_occurrence_unix("renag:not-a-number"), None);
}

#[test]
fn days_overdue_counts_whole_local_days_past_the_deadline() {
    let todos = vec![overdue("a", "2026-07-24")];
    let anchor = anchor("2026-07-24", UTC);
    // Ten hours in, still the first day past the deadline.
    assert_eq!(
        due_renags(&todos, &no_deliveries(), anchor + 10 * HOUR, UTC)[0].days_overdue,
        1
    );
    // Thirty hours in, the local day has turned once more: two days past.
    assert_eq!(
        due_renags(&todos, &no_deliveries(), anchor + 30 * HOUR, UTC)[0].days_overdue,
        2
    );
}

#[test]
fn the_latest_step_is_the_one_a_poll_raises() {
    assert_eq!(latest_renag_offset(HOUR - 1), None);
    assert_eq!(latest_renag_offset(HOUR), Some(HOUR));
    assert_eq!(latest_renag_offset(5 * HOUR), Some(3 * HOUR));
    assert_eq!(latest_renag_offset(38 * HOUR), Some(15 * HOUR));
    assert_eq!(latest_renag_offset(39 * HOUR), Some(39 * HOUR));
    assert_eq!(latest_renag_offset(100 * HOUR), Some(87 * HOUR));
}

#[test]
fn an_offset_or_a_moment_far_from_zero_is_answered_rather_than_refused() {
    assert!(due_renags(&[], &no_deliveries(), 0, 2_000_000_000_000).is_empty());
    assert!(due_renags(&[overdue("a", "2026-07-24")], &no_deliveries(), i64::MIN, i64::MAX).is_empty());
    // Zone offset i64::MIN puts the anchor far in the future: nothing overdue.
    assert!(due_renags(&[overdue("a", "2026-07-24")], &no_deliveries(), i64::MAX, i64::MIN).is_empty());
    // At the far end of time the task is long overdue, and the nag still says by how much.
    let due = due_renags(&[overdue("a", "2026-07-24")], &no_deliveries(), i64::MAX, UTC);
    assert_eq!(ids(&due), vec!["a"]);
    assert!(due[0].days_overdue > 100_000_000_000_000);
    assert_eq!(latest_renag_offset(-5), None);
    assert_eq!(latest_renag_offset(i64::MIN), None);
}
