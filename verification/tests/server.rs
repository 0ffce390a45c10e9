use todo_domain::backup::{
    expired_snapshots, is_snapshot_name, snapshot_file_name, snapshot_stem, snapshots_to_prune,
    BackupError, Moment,
};
use todo_domain::contracts::{
    ContractValidationError, HealthAlert, HealthStatus, LogHealth, RowFaults, SyncOperationKind,
    SyncRequest, TodoPatch, TodoSyncOperation,
};
use todo_domain::health::{
    alerts_by_opening, overall_status, partly_read_concern, unreachable_concern, unreadable_concern,
    AlertBook, HealthConcern, LOG_UNREACHABLE, UNREADABLE_ROWS_GROWING,
};
use todo_domain::metrics::{RequestMetrics, RequestOutcome, RowFaultLog, WaitWindow};
use todo_domain::next_sync_cursor;
use todo_domain::sync::{
    change_from_row, plan_operations, check_request, kind_from_text, kind_to_text,
    latest_revision_from, ServerError, StoredPatch, SyncStoreError,
};

const MILLI: u128 = 1_000_000;

fn moment(unix: i64) -> Moment {
    let at = time::OffsetDateTime::from_unix_timestamp(unix).unwrap();
    Moment {
        year: at.year(),
        month: u8::from(at.month()),
        day: at.day(),
        hour: at.hour(),
        minute: at.minute(),
        second: at.second(),
        millisecond: at.millisecond(),
    }
}

#[test]
fn cursor_increments_without_wrapping() {
    assert_eq!(next_sync_cursor(41), Some(42));
    assert_eq!(next_sync_cursor(u32::MAX), None);
}

#[test]
fn requests_are_counted_by_how_they_ended() {
    let mut metrics = RequestMetrics::with_default_window();
    metrics.record(RequestOutcome::Served, 0, 1_000);
    metrics.record(RequestOutcome::Failed, MILLI, 2_000);
    metrics.record(RequestOutcome::Rejected, 2 * MILLI, 3_000);

    let health = metrics.window_totals(3 * MILLI);

    assert_eq!(health.requests, 3);
    assert_eq!(health.failures, 1);
    assert_eq!(health.rejections, 1);
    assert_eq!(health.requests_total, 3);
    assert_eq!(health.failures_total, 1);
}

#[test]
fn the_slowest_request_and_the_average_are_both_kept() {
    let mut metrics = RequestMetrics::with_default_window();
    metrics.record(RequestOutcome::Served, 0, 10_000);
    metrics.record(RequestOutcome::Served, MILLI, 30_000);

    let health = metrics.window_totals(2 * MILLI);

    assert_eq!(health.micros_max, 30_000);
    assert_eq!(health.micros / health.requests, 20_000);
}

#[test]
fn what_happened_before_the_window_stops_being_reported() {
    // A 60 ms window: a failure recorded at the start falls out of it 120 ms
    // later, while the totals keep it on the record.
    let mut metrics = RequestMetrics::new(60 * MILLI);
    metrics.record(RequestOutcome::Failed, 0, 1_000);

    let health = metrics.window_totals(120 * MILLI);

    assert_eq!(health.requests, 0);
    assert_eq!(health.failures, 0);
    assert_eq!(health.requests_total, 1, "the run's total does not forget");
    assert_eq!(health.failures_total, 1);
}

#[test]
fn a_slot_whose_turn_comes_round_again_is_emptied_first() {
    // Slot length is 2 ms; slice 0 and slice 30 share a slot.
    let mut metrics = RequestMetrics::new(60 * MILLI);
    metrics.record(RequestOutcome::Failed, 0, 5_000);
    metrics.record(RequestOutcome::Served, 60 * MILLI, 1_000);

    let health = metrics.window_totals(60 * MILLI);
    assert_eq!(health.requests, 1);
    assert_eq!(health.failures, 0);
    assert_eq!(health.micros_max, 1_000);
    assert!(metrics.has_room(RequestOutcome::Served, 60 * MILLI, u64::MAX - 1_000));
    assert!(!metrics.has_room(RequestOutcome::Served, 60 * MILLI, u64::MAX - 999));
}

#[test]
fn a_recorded_request_is_counted_by_the_window_read_at_once() {
    let mut metrics = RequestMetrics::with_default_window();
    metrics.record(RequestOutcome::Failed, 5_000 * MILLI, 250);
    let now = metrics.window_totals(5_000 * MILLI);
    assert_eq!((now.requests, now.failures, now.micros, now.micros_max), (1, 1, 250, 250));

    metrics.record(RequestOutcome::Served, 5_000 * MILLI, 900);
    let now = metrics.window_totals(5_000 * MILLI);
    assert_eq!((now.requests, now.failures, now.micros, now.micros_max), (2, 1, 1_150, 900));

    // Two windows on, with nothing recorded since, the window reads nothing.
    let later = metrics.window_totals(245_000 * MILLI);
    assert_eq!((later.requests, later.failures, later.micros, later.micros_max), (0, 0, 0, 0));
    assert_eq!((later.requests_total, later.failures_total), (2, 1));
}

#[test]
fn a_row_read_again_is_not_a_second_row() {
    let mut observations = RowFaultLog::new();
    let window = 120_000 * MILLI;
    let now = "2026-07-24T09:00:00Z".to_owned();

    assert!(observations.note(7, "revision 7: title".to_owned(), 0, window, now.clone()));
    assert!(!observations.note(7, "revision 7: title".to_owned(), MILLI, window, now.clone()));
    assert!(!observations.note(7, "revision 7: title".to_owned(), 2 * MILLI, window, now.clone()));
    assert!(observations.note(9, "revision 9: kind".to_owned(), 3 * MILLI, window, now.clone()));

    let faults = observations.summarise(4 * MILLI, window);
    assert_eq!(faults.rows, 2, "two rows, however often they are read");
    assert_eq!(faults.reads, 4);
    assert_eq!(faults.new_in_window, 2);
    assert_eq!(faults.newest.as_deref(), Some("revision 9: kind"));
    assert!(faults.first_seen_at.is_some());
    assert!(faults.newest_seen_at.is_some());
}

#[test]
fn rows_that_stopped_turning_up_leave_the_window_but_not_the_count() {
    let mut observations = RowFaultLog::new();
    let window = 60 * MILLI;
    observations.note(7, "revision 7: title".to_owned(), 0, window, "t0".to_owned());

    let faults = observations.summarise(120 * MILLI, window);

    assert_eq!(faults.new_in_window, 0, "nothing new has been found");
    assert_eq!(faults.rows, 1, "the row is still there and still counted");
    assert_eq!(faults.first_seen_at.as_deref(), Some("t0"));
}

#[test]
fn the_two_kinds_of_bad_row_are_counted_apart() {
    let window = 120_000 * MILLI;
    let mut unreadable = RowFaultLog::new();
    let mut partly_read = RowFaultLog::new();
    unreadable.note(7, "revision 7: title".to_owned(), 0, window, "t".to_owned());
    partly_read.note(8, "revision 8: subtasks.0.note".to_owned(), 0, window, "t".to_owned());

    assert_eq!(unreadable.summarise(0, window).rows, 1);
    let partly = partly_read.summarise(0, window);
    assert_eq!(partly.rows, 1);
    assert_eq!(partly.newest.as_deref(), Some("revision 8: subtasks.0.note"));
}

#[test]
fn the_longest_wait_for_the_connection_is_the_one_reported() {
    let mut waits = WaitWindow::new(120_000 * MILLI);
    waits.note_wait(0, 2_000);
    waits.note_wait(MILLI, 40_000);
    waits.note_wait(2 * MILLI, 5_000);

    assert_eq!(waits.slowest_wait(3 * MILLI), 40_000);
    // Once the window has moved past them, nothing is left to report.
    assert_eq!(waits.slowest_wait(1_000_000 * MILLI), 0);
}

#[test]
fn snapshot_names_sort_oldest_first() {
    let earlier = snapshot_stem(moment(1_784_000_000));
    let later = snapshot_stem(moment(1_784_003_600));

    assert!(earlier < later, "{earlier} should sort before {later}");
    assert!(earlier.starts_with("sync-log-"));
}

#[test]
fn a_snapshot_name_is_fixed_width_and_coarse_to_fine() {
    let stem = snapshot_stem(Moment {
        year: 2026,
        month: 7,
        day: 4,
        hour: 3,
        minute: 5,
        second: 9,
        millisecond: 7,
    });
    assert_eq!(stem, "sync-log-20260704T030509007Z");
    assert_eq!(snapshot_file_name(&stem, 0), "sync-log-20260704T030509007Z.sqlite3");
    assert_eq!(snapshot_file_name(&stem, 2), "sync-log-20260704T030509007Z-2.sqlite3");
}

#[test]
fn only_snapshot_files_are_listed() {
    assert!(is_snapshot_name("sync-log-20260704T030509007Z.sqlite3"));
    assert!(is_snapshot_name("sync-log-20260704T030509007Z-2.sqlite3"));
    assert!(!is_snapshot_name("notes.txt"));
    assert!(!is_snapshot_name("sync-log-20260704T030509007Z.sqlite3-wal"));
    assert!(!is_snapshot_name("backup-sync-log-1.sqlite3"));
}

#[test]
fn pruning_keeps_the_newest_and_never_empties_the_directory() {
    let names: Vec<String> = (1..=5).map(|n| format!("sync-log-{n}.sqlite3")).collect();
    assert_eq!(expired_snapshots(&names, 3), names[..2].to_vec());
    assert!(expired_snapshots(&names, 5).is_empty());
    assert_eq!(expired_snapshots(&names, 0), names[..4].to_vec());
}

#[test]
fn pruning_a_directory_removes_its_oldest_snapshots_and_nothing_else() {
    let listed: Vec<String> = [
        "sync-log-20260704T030509007Z.sqlite3",
        "notes.txt",
        "sync-log-20260702T000000000Z.sqlite3",
        "sync-log-20260704T030509007Z.sqlite3-wal",
        "sync-log-20260703T120000000Z.sqlite3",
        "sync-log-20260701T000000000Z.sqlite3",
    ]
    .iter()
    .map(|name| name.to_string())
    .collect();
    assert_eq!(
        snapshots_to_prune(&listed, 2),
        vec![
            "sync-log-20260701T000000000Z.sqlite3".to_owned(),
            "sync-log-20260702T000000000Z.sqlite3".to_owned(),
        ]
    );
    // A policy keeping none still keeps the newest.
    assert_eq!(snapshots_to_prune(&listed, 0).len(), 3);
    assert!(snapshots_to_prune(&listed, 4).is_empty());
    assert!(snapshots_to_prune(&["notes.txt".to_owned()], 0).is_empty());
}

#[test]
fn a_backup_failure_says_what_was_unusable() {
    let error = BackupError::MissingSnapshot("/tmp/x.sqlite3".to_owned());
    assert_eq!(error.message(), "there is no snapshot at /tmp/x.sqlite3");
    let in_use = BackupError::TargetInUse("/srv/log.sqlite3".to_owned());
    assert_eq!(
        in_use.message(),
        "the sync log at /srv/log.sqlite3 is still open; stop the server before restoring"
    );
    let store = BackupError::from_store(SyncStoreError::UnusableRevision(-4));
    assert_eq!(store.message(), "stored revision -4 is out of range");
}

fn upsert(operation_id: &str) -> TodoSyncOperation {
    TodoSyncOperation {
        operation_id: operation_id.to_owned(),
        todo_id: "todo-1".to_owned(),
        kind: SyncOperationKind::Upsert,
        occurred_at: "2026-07-16T00:00:00Z".to_owned(),
        patch: Some(TodoPatch {
            title: Some("Ship Axum".to_owned()),
            ..TodoPatch::empty()
        }),
    }
}

#[test]
fn a_new_operation_takes_the_next_revision_and_a_replayed_one_takes_none() {
    let operations = vec![upsert("operation-1")];
    let plan = plan_operations(0, &operations, &[false]).expect("room left");
    assert_eq!(plan.next_cursor, 1);
    assert_eq!(plan.appended, vec![(0, 1)]);
    assert_eq!(plan.acknowledged, vec!["operation-1".to_owned()]);

    let again = plan_operations(1, &operations, &[true]).expect("replay");
    assert_eq!(again.next_cursor, 1);
    assert!(again.appended.is_empty());
    assert_eq!(again.acknowledged, vec!["operation-1".to_owned()]);

    assert!(matches!(
        plan_operations(u32::MAX, &[upsert("operation-2")], &[false]),
        Err(ServerError::CursorExhausted)
    ));
}

#[test]
fn an_operation_repeated_within_one_request_is_appended_once() {
    let operations = vec![upsert("operation-1"), upsert("operation-2"), upsert("operation-1")];
    let plan = plan_operations(7, &operations, &[false, true, false]).expect("room left");
    assert_eq!(plan.appended, vec![(0, 8)]);
    assert_eq!(plan.next_cursor, 8);
    assert_eq!(
        plan.acknowledged,
        vec!["operation-1".to_owned(), "operation-2".to_owned(), "operation-1".to_owned()]
    );
}

#[test]
fn new_operations_are_numbered_in_turn_and_a_full_cursor_refuses_the_request() {
    let operations = vec![upsert("a"), upsert("b"), upsert("c")];
    let plan = plan_operations(u32::MAX - 3, &operations, &[false, false, false]).expect("just room");
    assert_eq!(plan.appended, vec![(0, u32::MAX - 2), (1, u32::MAX - 1), (2, u32::MAX)]);
    assert_eq!(plan.next_cursor, u32::MAX);
    assert!(matches!(
        plan_operations(u32::MAX - 2, &operations, &[false, false, false]),
        Err(ServerError::CursorExhausted)
    ));
    // Operations the log holds take no revision, so the same request fits.
    let plan = plan_operations(u32::MAX - 2, &operations, &[true, false, false]).expect("room");
    assert_eq!(plan.appended, vec![(1, u32::MAX - 1), (2, u32::MAX)]);
}

#[test]
fn a_request_the_contract_refuses_is_answered_with_a_bad_request() {
    let request = SyncRequest {
        device_id: "desktop-1".to_owned(),
        cursor: 0,
        operations: vec![TodoSyncOperation {
            kind: SyncOperationKind::Delete,
            ..upsert("operation-1")
        }],
    };
    let refused = check_request(&request).unwrap_err();
    assert_eq!(refused.status_code(), 400);
    assert_eq!(refused.public_message(), "delete operations must not include a patch");

    let storage = ServerError::from_store(SyncStoreError::Poisoned);
    assert_eq!(storage.status_code(), 500);
    assert_eq!(storage.public_message(), "sync state is unavailable");
    assert_eq!(SyncStoreError::Poisoned.message(), "the sync log lock is poisoned");
}

#[test]
fn a_stored_row_is_read_back_or_skipped_rather_than_guessed() {
    assert_eq!(kind_to_text(SyncOperationKind::Upsert), "upsert");
    assert_eq!(kind_from_text("delete"), Some(SyncOperationKind::Delete));
    assert_eq!(kind_from_text("Delete"), None);

    let change = change_from_row(
        3,
        "operation-3".to_owned(),
        "todo-1".to_owned(),
        "delete",
        "2026-07-23T00:00:00Z".to_owned(),
        StoredPatch::Absent,
    )
    .expect("a readable row");
    assert_eq!(change.revision, 3);
    assert_eq!(change.kind, SyncOperationKind::Delete);

    for (revision, kind, patch) in [
        (-1, "upsert", StoredPatch::Absent),
        (3, "rename", StoredPatch::Absent),
        (3, "upsert", StoredPatch::Unreadable),
    ] {
        assert!(change_from_row(
            revision,
            "operation-3".to_owned(),
            "todo-1".to_owned(),
            kind,
            "2026-07-23T00:00:00Z".to_owned(),
            patch,
        )
        .is_none());
    }

    assert_eq!(latest_revision_from(7).ok(), Some(7));
    assert!(matches!(
        latest_revision_from(5_000_000_000),
        Err(SyncStoreError::UnusableRevision(5_000_000_000))
    ));
}

fn faults(new_in_window: u64, rows: u64, newest: Option<&str>) -> RowFaults {
    RowFaults {
        rows,
        reads: rows,
        new_in_window,
        first_seen_at: None,
        newest_seen_at: None,
        newest: newest.map(str::to_owned),
    }
}

fn log(reachable: bool, busy: bool) -> LogHealth {
    LogHealth {
        reachable,
        busy,
        latest_revision: None,
        unreadable_rows: faults(0, 0, None),
        partly_read_rows: faults(0, 0, None),
    }
}

fn concern(name: &str, severity: HealthStatus) -> HealthConcern {
    HealthConcern { name: name.to_owned(), severity, detail: format!("{name} detail") }
}

#[test]
fn the_worst_open_concern_is_the_one_reported() {
    assert_eq!(overall_status(&[]), HealthStatus::Okay);
    assert_eq!(
        overall_status(&[concern("sync_slow", HealthStatus::Degraded)]),
        HealthStatus::Degraded
    );
    assert_eq!(
        overall_status(&[
            concern("sync_failure_rate", HealthStatus::Unhealthy),
            concern("sync_slow", HealthStatus::Degraded),
        ]),
        HealthStatus::Unhealthy
    );
}

#[test]
fn a_log_that_is_merely_busy_is_not_an_alarm() {
    assert!(unreachable_concern(&log(false, true)).is_none());
    assert!(unreachable_concern(&log(true, false)).is_none());
    let down = unreachable_concern(&log(false, false)).expect("a log that did not answer");
    assert_eq!(down.name, LOG_UNREACHABLE);
    assert_eq!(down.severity, HealthStatus::Unhealthy);
}

#[test]
fn bad_rows_are_reported_while_they_are_still_turning_up() {
    let growing = unreadable_concern(&faults(2, 5, Some("revision 7: title"))).expect("growing");
    assert_eq!(growing.name, UNREADABLE_ROWS_GROWING);
    assert_eq!(
        growing.detail,
        "2 more log rows became unreadable (5 in all); devices are not receiving them; newest: revision 7: title"
    );
    assert!(unreadable_concern(&faults(0, 5, None)).is_none());
    let partly = partly_read_concern(&faults(1, 1, None)).expect("growing");
    assert_eq!(
        partly.detail,
        "1 more log rows were served without fields this build cannot name (1 in all); a newer build wrote them"
    );
}

#[test]
fn an_alert_keeps_the_time_it_opened_and_clears_when_the_fault_stops() {
    let mut book = AlertBook::new();
    let rows = concern(UNREADABLE_ROWS_GROWING, HealthStatus::Degraded);

    let opened = book.reconcile(&[rows.clone()], "2026-07-24T09:00:00Z");
    assert_eq!(opened.alerts.len(), 1);
    assert_eq!(opened.opened, vec![0]);
    let since = opened.alerts[0].since.clone();

    let again = book.reconcile(&[rows], "2026-07-24T09:01:00Z");
    assert_eq!(again.alerts[0].since, since, "an alert that is still open keeps the moment it opened");
    assert!(again.opened.is_empty());
    assert!(book.already_open(UNREADABLE_ROWS_GROWING));

    let settled = book.reconcile(&[], "2026-07-24T09:02:00Z");
    assert!(settled.alerts.is_empty());
    assert_eq!(settled.cleared.len(), 1);
    assert_eq!(settled.cleared[0].since, since);
    assert!(!book.already_open(UNREADABLE_ROWS_GROWING));
    assert_eq!(overall_status(&[]), HealthStatus::Okay);
}

#[test]
fn a_contract_error_has_its_sentence() {
    assert_eq!(
        ContractValidationError::InvalidTitle.message(),
        "a title must contain 1 to 500 non-whitespace characters"
    );
}

#[test]
fn open_alerts_are_listed_oldest_first_keeping_the_order_of_those_opened_together() {
    let alert = |name: &str, since: &str| HealthAlert {
        name: name.to_owned(),
        severity: HealthStatus::Degraded,
        since: since.to_owned(),
        detail: String::new(),
    };
    let sorted = alerts_by_opening(vec![
        alert("sync_slow", "2026-07-04T10:00:00Z"),
        alert("sync_log_unreachable", "2026-07-04T09:00:00Z"),
        alert("unreadable_rows_growing", "2026-07-04T10:00:00Z"),
        alert("sync_failure_rate", "2026-07-04T09:30:00Z"),
    ]);
    let names: Vec<&str> = sorted.iter().map(|alert| alert.name.as_str()).collect();
    assert_eq!(
        names,
        vec!["sync_log_unreachable", "sync_failure_rate", "sync_slow", "unreadable_rows_growing"]
    );
}

#[test]
fn a_server_doing_its_job_has_nothing_to_report() {
    let healthy = log(true, false);
    assert!(unreachable_concern(&healthy).is_none());
    assert!(unreadable_concern(&healthy.unreadable_rows).is_none());
    assert!(partly_read_concern(&healthy.partly_read_rows).is_none());
    assert_eq!(overall_status(&[]), HealthStatus::Okay);
}

#[test]
fn a_log_that_does_not_answer_is_unhealthy() {
    let down = unreachable_concern(&log(false, false)).expect("a log that did not answer");
    assert_eq!(down.name, LOG_UNREACHABLE);
    assert_eq!(down.detail, "the sync log did not answer when it was last looked at");
    assert_eq!(overall_status(&[down]), HealthStatus::Unhealthy);
}

#[test]
fn bad_rows_that_stopped_turning_up_clear_while_the_count_stays() {
    // Still there and still counted, but nothing new found in the window.
    assert!(unreadable_concern(&faults(0, 3, Some("revision 9: title is not readable"))).is_none());
}

#[test]
fn rows_served_without_fields_this_build_cannot_name_are_reported_separately() {
    let rolled_back = faults(5, 5, Some("revision 12: dropped subtasks.0.note"));
    let concern = partly_read_concern(&rolled_back).expect("rows still turning up");
    assert_eq!(concern.name, "partly_read_rows_growing");
    assert!(concern.detail.contains("a newer build wrote them"));
    assert!(concern.detail.contains("revision 12"));
    assert!(unreadable_concern(&faults(0, 0, None)).is_none());
    assert_eq!(overall_status(&[concern]), HealthStatus::Degraded);
}
