use todo_domain::contracts::{RecurrenceCalendar, RecurrenceFrequency, RecurrenceRule, Weekday};
use todo_domain::habit::{habit_progress, HabitProgress};
use todo_domain::recurrence::RecurrenceError;



fn daily() -> RecurrenceRule {
    RecurrenceRule {
        frequency: RecurrenceFrequency::Daily,
        interval: 1,
        weekdays: Vec::new(),
        month_day: None,
        on_last_day: false,
        calendar: RecurrenceCalendar::Gregorian,
        until: None,
        count: None,
    }
}

fn dates(values: &[&str]) -> Vec<String> {
    values.iter().map(|value| (*value).to_owned()).collect()
}

#[test]
fn a_run_of_checked_days_up_to_yesterday_is_the_streak() {
    // Due today (2026-07-23), the three days before it checked: today is the
    // current occurrence and not counted, so the streak is those three.
    let progress = habit_progress(
        &daily(),
        "2026-07-23",
        &dates(&["2026-07-20", "2026-07-21", "2026-07-22"]),
    )
    .expect("a habit the engine can read");
    assert_eq!(progress.streak, 3);
}

#[test]
fn leaving_today_unchecked_is_not_yet_a_break() {
    // The current due day carries no weight either way: unchecked today, the
    // streak still stands at what was kept up through yesterday.
    let progress = habit_progress(&daily(), "2026-07-23", &dates(&["2026-07-22"]))
        .expect("a habit the engine can read");
    assert_eq!(progress.streak, 1);
    // And today is never offered as a make-up day.
    assert!(!progress.makeup.contains(&"2026-07-23".to_owned()));
}

#[test]
fn a_missed_day_that_has_gone_by_breaks_the_streak() {
    // The day-start pass has moved the due date to 2026-07-24, so 07-23 has
    // fallen due unchecked: the streak is broken and 07-23 is the newest day
    // to make up.
    let progress = habit_progress(
        &daily(),
        "2026-07-24",
        &dates(&["2026-07-20", "2026-07-21", "2026-07-22"]),
    )
    .expect("a habit the engine can read");
    assert_eq!(progress.streak, 0);
    assert_eq!(progress.makeup.first().map(String::as_str), Some("2026-07-23"));
}

#[test]
fn make_up_offers_the_recent_misses_newest_first_and_capped() {
    // Only yesterday checked: the days before it are misses, and the three
    // most recent are offered, newest first.
    let progress = habit_progress(&daily(), "2026-07-23", &dates(&["2026-07-22"]))
        .expect("a habit the engine can read");
    assert_eq!(progress.streak, 1);
    assert_eq!(
        progress.makeup,
        dates(&["2026-07-21", "2026-07-20", "2026-07-19"])
    );
}

#[test]
fn a_kept_up_habit_offers_nothing_to_make_up() {
    // Every day the window reaches checked: no misses, so no buttons — the
    // common case, where only the streak pill shows.
    let progress = habit_progress(
        &daily(),
        "2026-07-23",
        &dates(&[
            "2026-07-15",
            "2026-07-16",
            "2026-07-17",
            "2026-07-18",
            "2026-07-19",
            "2026-07-20",
            "2026-07-21",
            "2026-07-22",
        ]),
    )
    .expect("a habit the engine can read");
    assert!(progress.makeup.is_empty());
    assert_eq!(progress.streak, 8);
}

#[test]
fn a_daily_interval_counts_on_its_own_grid() {
    // Every other day: only the on-grid days before the due date count, and
    // the make-up window steps in twos too.
    let mut every_other = daily();
    every_other.interval = 2;

    let progress =
        habit_progress(&every_other, "2026-07-23", &dates(&["2026-07-19", "2026-07-21"]))
            .expect("a habit the engine can read");
    assert_eq!(progress.streak, 2);
    assert_eq!(progress.makeup.first().map(String::as_str), Some("2026-07-17"));
}

#[test]
fn a_weekly_streak_counts_the_weeks_it_was_kept() {
    // Weekly with no named day keeps the due date's weekday (Thursday). Two
    // past Thursdays checked, the next due 2026-07-30: a two-week streak.
    let weekly = RecurrenceRule {
        frequency: RecurrenceFrequency::Weekly,
        ..daily()
    };
    let progress =
        habit_progress(&weekly, "2026-07-30", &dates(&["2026-07-16", "2026-07-23"]))
            .expect("a habit the engine can read");
    assert_eq!(progress.streak, 2);
    // The earlier Thursdays in the window are the misses to offer.
    assert_eq!(progress.makeup.first().map(String::as_str), Some("2026-07-09"));
}

#[test]
fn a_weekly_rule_that_names_days_makes_up_each_of_them() {
    // Monday/Wednesday/Friday, next due Monday 2026-08-03. The Friday and
    // Wednesday just gone are unchecked, so both are recent misses.
    let mut mwf = RecurrenceRule {
        frequency: RecurrenceFrequency::Weekly,
        ..daily()
    };
    mwf.weekdays = vec![Weekday::Monday, Weekday::Wednesday, Weekday::Friday];

    let progress = habit_progress(&mwf, "2026-08-03", &dates(&["2026-07-27"]))
        .expect("a habit the engine can read");
    // 2026-07-31 (Fri) and 2026-07-29 (Wed) are the newest missed named days.
    assert_eq!(
        progress.makeup.first().map(String::as_str),
        Some("2026-07-31")
    );
    assert!(progress.makeup.contains(&"2026-07-29".to_owned()));
}

#[test]
fn no_check_ins_means_no_streak_but_still_offers_recent_misses() {
    // A habit that has never been checked: streak zero, yet the last few
    // scheduled days are there to catch up on.
    let progress =
        habit_progress(&daily(), "2026-07-23", &[]).expect("a habit the engine can read");
    assert_eq!(progress.streak, 0);
    assert_eq!(
        progress.makeup,
        dates(&["2026-07-22", "2026-07-21", "2026-07-20"])
    );
}

#[test]
fn a_monthly_rule_is_not_a_habit() {
    // Only daily and weekly are habits; a monthly rule answers empty rather
    // than counting "months in a row".
    let monthly = RecurrenceRule {
        frequency: RecurrenceFrequency::Monthly,
        ..daily()
    };
    let progress = habit_progress(&monthly, "2026-08-10", &dates(&["2026-06-10", "2026-07-10"]))
        .expect("the engine reads the rule");
    assert_eq!(progress, HabitProgress::default());
}

#[test]
fn an_unreadable_due_date_is_refused() {
    assert!(habit_progress(&daily(), "not-a-date", &[]).is_err());
}

#[test]
fn a_rule_the_contract_refuses_is_refused_once_there_is_a_grid_to_lay() {
    let mut broken = daily();
    broken.interval = 0;
    assert_eq!(
        habit_progress(&broken, "2026-07-23", &dates(&["2026-07-20"])),
        Err(RecurrenceError::UnusableRule(
            todo_domain::contracts::ContractValidationError::InvalidRecurrence
        ))
    );
}

#[test]
fn a_check_in_that_does_not_read_as_a_date_is_skipped() {
    let progress = habit_progress(&daily(), "2026-07-23", &dates(&["yesterday", "2026-07-22"]))
        .expect("a habit the engine can read");
    assert_eq!(progress.streak, 1);
}

#[test]
fn a_count_on_the_rule_does_not_cut_the_streak_short() {
    let mut counted = daily();
    counted.count = Some(2);
    let progress = habit_progress(
        &counted,
        "2026-07-23",
        &dates(&["2026-07-19", "2026-07-20", "2026-07-21", "2026-07-22"]),
    )
    .expect("a habit the engine can read");
    assert_eq!(progress.streak, 4);
}

#[test]
fn a_window_that_would_open_before_year_zero_is_refused() {
    assert_eq!(
        habit_progress(&daily(), "0000-01-03", &[]),
        Err(RecurrenceError::UnreadableDate)
    );
}
