use todo_domain::quiet::{local_minute_of_day, plan_quiet_delivery, QuietPlan, QuietWindow};


// 2026-07-24T00:00:00Z, a UTC local midnight, so a minute-of-day maps to that
// many minutes past this instant.
const MIDNIGHT: i64 = 1_784_851_200;

/// A Unix instant at `hour:minute` UTC on the midnight day above.
fn at(hour: i64, minute: i64) -> i64 {
    MIDNIGHT + (hour * 60 + minute) * 60
}

fn night() -> QuietWindow {
    QuietWindow::parse("22:00", "08:00").expect("a valid cross-midnight window")
}

#[test]
fn a_window_parses_from_two_clock_strings() {
    let window = night();
    assert_eq!(window.start_minute(), 22 * 60);
    assert_eq!(window.end_minute(), 8 * 60);
}

#[test]
fn an_empty_or_unreadable_window_is_none_so_the_caller_fails_open() {
    // Start equal to end names no span of time.
    assert_eq!(QuietWindow::parse("08:00", "08:00"), None);
    // Shapes the time input never writes.
    assert_eq!(QuietWindow::parse("9:00", "08:00"), None);
    assert_eq!(QuietWindow::parse("24:00", "08:00"), None);
    assert_eq!(QuietWindow::parse("22:60", "08:00"), None);
    assert_eq!(QuietWindow::parse("", "08:00"), None);
    assert_eq!(QuietWindow::parse("22-00", "08:00"), None);
    // A multi-byte value must return None, not panic on a byte slice.
    assert_eq!(QuietWindow::parse("22:0点", "08:00"), None);
}

#[test]
fn a_cross_midnight_window_is_inclusive_of_its_start_and_exclusive_of_its_end() {
    let window = night();
    // Exactly 22:00 is already silent; a minute before is not.
    assert!(window.contains(22 * 60));
    assert!(!window.contains(22 * 60 - 1));
    // Across midnight the small hours are silent.
    assert!(window.contains(0));
    assert!(window.contains(2 * 60));
    assert!(window.contains(8 * 60 - 1));
    // Exactly 08:00 is the morning — the poll that ends the silence.
    assert!(!window.contains(8 * 60));
    assert!(!window.contains(12 * 60));
}

#[test]
fn a_same_day_window_silences_only_the_span_between_its_ends() {
    let window = QuietWindow::parse("13:00", "14:00").expect("a valid same-day window");
    assert!(!window.contains(12 * 60 + 59));
    assert!(window.contains(13 * 60));
    assert!(window.contains(13 * 60 + 30));
    assert!(!window.contains(14 * 60));
    // Midnight is outside a same-day window, unlike a cross-midnight one.
    assert!(!window.contains(0));
}

#[test]
fn a_minute_of_day_reads_through_the_zone_offset() {
    // Midnight UTC is minute 0 for a UTC device.
    assert_eq!(local_minute_of_day(MIDNIGHT, 0), 0);
    assert_eq!(local_minute_of_day(at(22, 30), 0), 22 * 60 + 30);
    // Eight hours east, midnight UTC is 08:00 local.
    assert_eq!(local_minute_of_day(MIDNIGHT, 8 * 3_600), 8 * 60);
    // A minute west of UTC, midnight UTC is a minute before local midnight —
    // the last minute of the previous day (23:59), not a negative one.
    assert_eq!(local_minute_of_day(MIDNIGHT, -60), 23 * 60 + 59);
}

#[test]
fn no_window_delivers_everything_on_its_own() {
    // Fail-open: quiet hours off (or a window that would not parse) leaves the
    // ordinary per-reminder path untouched.
    let due = [at(9, 0), at(15, 0), at(23, 0)];
    let plan = plan_quiet_delivery(&due, None, at(23, 30), 0);
    assert_eq!(plan.deliver, vec![0, 1, 2]);
    assert!(plan.summarize.is_empty());
}

#[test]
fn inside_the_window_nothing_goes_out() {
    // Two reminders came due in the small hours; the poll is at 02:00, inside
    // the window, so both are held — raised and recorded nowhere.
    let due = [at(1, 0), at(1, 30)];
    let plan = plan_quiet_delivery(&due, Some(night()), at(2, 0), 0);
    assert_eq!(plan, QuietPlan::default());
}

#[test]
fn the_first_poll_after_the_window_folds_the_night_into_one_summary() {
    // 窗口结束补推合并: three reminders came due across the night and were held;
    // the first poll at 08:00 flushes the whole batch as a single summary and
    // records every one of them.
    let due = [at(22, 30), at(1, 0), at(7, 0)];
    let plan = plan_quiet_delivery(&due, Some(night()), at(8, 0), 0);
    assert!(plan.deliver.is_empty());
    assert_eq!(plan.summarize, vec![0, 1, 2]);
}

#[test]
fn a_single_held_reminder_is_delivered_as_itself_not_a_summary_of_one() {
    // Exactly one reminder was held overnight: at 08:00 it goes out with its
    // own text, no summary.
    let due = [at(3, 0)];
    let plan = plan_quiet_delivery(&due, Some(night()), at(8, 0), 0);
    assert_eq!(plan.deliver, vec![0]);
    assert!(plan.summarize.is_empty());
}

#[test]
fn a_daytime_reminder_outside_the_window_is_never_batched() {
    // Quiet hours are on, but two reminders come due at 15:00 — outside the
    // window. Their moments were never silent, so they go out one at a time
    // and there is no "quiet hours are over" summary in the middle of the day.
    let due = [at(15, 0), at(15, 0)];
    let plan = plan_quiet_delivery(&due, Some(night()), at(15, 1), 0);
    assert_eq!(plan.deliver, vec![0, 1]);
    assert!(plan.summarize.is_empty());
}

#[test]
fn the_flush_poll_keeps_held_and_fresh_apart() {
    // At the flush poll a reminder that only just came due (09:00, outside the
    // window) rides alongside the held night batch: the fresh one goes out on
    // its own, the two held ones become the summary.
    let due = [at(23, 0), at(9, 0), at(2, 0)];
    let plan = plan_quiet_delivery(&due, Some(night()), at(9, 1), 0);
    assert_eq!(plan.deliver, vec![1]);
    assert_eq!(plan.summarize, vec![0, 2]);
}

#[test]
fn an_empty_window_holds_nothing() {
    // A start-equals-end window parses to None, so even the small hours deliver
    // — the母任务 "never lost" guard against a misconfigured window.
    let due = [at(1, 0), at(2, 0)];
    let plan = plan_quiet_delivery(&due, QuietWindow::parse("08:00", "08:00"), at(2, 0), 0);
    assert_eq!(plan.deliver, vec![0, 1]);
    assert!(plan.summarize.is_empty());
}

#[test]
fn a_clock_string_reads_as_minutes_past_midnight() {
    assert_eq!(todo_domain::quiet::parse_hm("00:00"), Some(0));
    assert_eq!(todo_domain::quiet::parse_hm("23:59"), Some(23 * 60 + 59));
    assert_eq!(todo_domain::quiet::parse_hm("07:05"), Some(7 * 60 + 5));
    assert_eq!(todo_domain::quiet::parse_hm("7:05"), None);
}
