use todo_domain::civil::{add_days, format_iso_date, parse_date};
use todo_domain::contracts::{
    ContractValidationError, RecurrenceCalendar, RecurrenceFrequency, RecurrenceRule, Weekday,
};
use todo_domain::holidays::coverage;
use todo_domain::lunar::{day_in, Sky};
use todo_domain::recurrence::{next_occurrence, RecurrenceError};


fn rule(frequency: RecurrenceFrequency) -> RecurrenceRule {
    RecurrenceRule {
        frequency,
        interval: 1,
        weekdays: Vec::new(),
        month_day: None,
        on_last_day: false,
        calendar: RecurrenceCalendar::Gregorian,
        until: None,
        count: None,
    }
}

/// The first `wanted` occurrences from the anchor on, the anchor included.
///
/// Walking with the answer as the next `after` is how a caller reads the
/// series, so the tests read it the same way.
fn series(rule: &RecurrenceRule, anchor: &str, wanted: usize) -> Vec<String> {
    let start = parse_date(anchor).expect("a readable anchor");
    let mut cursor = format_iso_date(add_days(start, -1));
    let mut dates = Vec::new();

    while dates.len() < wanted {
        match next_occurrence(rule, anchor, &cursor).expect("a rule the engine can read") {
            Some(occurrence) => {
                cursor.clone_from(&occurrence.date);
                dates.push(occurrence.date);
            }
            None => break,
        }
    }

    dates
}

/// One answer, as the date alone — for the tests that ask a single question
/// and do not care what else the answer carries.
fn next_date_only(
    rule: &RecurrenceRule,
    anchor: &str,
    after: &str,
) -> Result<Option<String>, RecurrenceError> {
    Ok(next_occurrence(rule, anchor, after)?.map(|occurrence| occurrence.date))
}

#[test]
fn a_daily_rule_lands_on_every_day_from_the_anchor() {
    assert_eq!(
        series(&rule(RecurrenceFrequency::Daily), "2026-07-23", 4),
        ["2026-07-23", "2026-07-24", "2026-07-25", "2026-07-26"]
    );
}

#[test]
fn a_custom_interval_counts_days_across_the_end_of_a_month() {
    let mut every_third_day = rule(RecurrenceFrequency::Daily);
    every_third_day.interval = 3;

    assert_eq!(
        series(&every_third_day, "2026-07-28", 4),
        ["2026-07-28", "2026-07-31", "2026-08-03", "2026-08-06"]
    );
}

#[test]
fn a_weekly_rule_that_names_no_day_keeps_the_anchors_weekday() {
    // 2026-07-23 is a Thursday.
    assert_eq!(
        series(&rule(RecurrenceFrequency::Weekly), "2026-07-23", 3),
        ["2026-07-23", "2026-07-30", "2026-08-06"]
    );
}

#[test]
fn every_other_week_skips_a_whole_week() {
    let mut fortnightly = rule(RecurrenceFrequency::Weekly);
    fortnightly.interval = 2;

    assert_eq!(
        series(&fortnightly, "2026-07-23", 3),
        ["2026-07-23", "2026-08-06", "2026-08-20"]
    );
}

#[test]
fn monday_wednesday_friday_lands_on_each_of_them() {
    let mut mwf = rule(RecurrenceFrequency::Weekly);
    mwf.weekdays = vec![Weekday::Monday, Weekday::Wednesday, Weekday::Friday];

    // Anchored on a Thursday, which the rule does not name: the anchor is
    // still the first occurrence, then the named days follow. The same
    // series ical.js expands `FREQ=WEEKLY;BYDAY=MO,WE,FR` into from the same
    // start date, so the app and an exported file agree.
    assert_eq!(
        series(&mwf, "2026-07-23", 6),
        [
            "2026-07-23",
            "2026-07-24",
            "2026-07-27",
            "2026-07-29",
            "2026-07-31",
            "2026-08-03",
        ]
    );
}

#[test]
fn an_interval_and_a_set_of_weekdays_count_weeks_together() {
    // The pair is the case a per-occurrence interval would get wrong: the
    // rule must skip the whole week of the 27th, not every second landing.
    let mut every_other_mwf = rule(RecurrenceFrequency::Weekly);
    every_other_mwf.interval = 2;
    every_other_mwf.weekdays = vec![Weekday::Monday, Weekday::Wednesday, Weekday::Friday];

    assert_eq!(
        series(&every_other_mwf, "2026-07-23", 6),
        [
            "2026-07-23",
            "2026-07-24",
            "2026-08-03",
            "2026-08-05",
            "2026-08-07",
            "2026-08-17",
        ]
    );
}

#[test]
fn the_days_of_a_week_come_in_week_order_whatever_order_they_were_stored_in() {
    let mut written_backwards = rule(RecurrenceFrequency::Weekly);
    written_backwards.weekdays = vec![Weekday::Friday, Weekday::Monday];

    assert_eq!(
        series(&written_backwards, "2026-07-20", 4),
        ["2026-07-20", "2026-07-24", "2026-07-27", "2026-07-31"]
    );
}

#[test]
fn a_monthly_rule_keeps_its_day_of_the_month() {
    let mut tenth = rule(RecurrenceFrequency::Monthly);
    tenth.month_day = Some(10);

    assert_eq!(
        series(&tenth, "2026-08-10", 3),
        ["2026-08-10", "2026-09-10", "2026-10-10"]
    );
}

#[test]
fn a_monthly_rule_that_names_no_day_keeps_the_anchors_day_across_the_year_end() {
    assert_eq!(
        series(&rule(RecurrenceFrequency::Monthly), "2026-11-15", 4),
        ["2026-11-15", "2026-12-15", "2027-01-15", "2027-02-15"]
    );
}

#[test]
fn a_monthly_interval_counts_months_across_the_year_end() {
    let mut every_five_months = rule(RecurrenceFrequency::Monthly);
    every_five_months.interval = 5;

    assert_eq!(
        series(&every_five_months, "2026-10-15", 3),
        ["2026-10-15", "2027-03-15", "2027-08-15"]
    );
}

#[test]
fn a_month_too_short_for_the_day_is_skipped_rather_than_moved() {
    // The 31st exists in seven months; February, April, June, September and
    // November are passed over, not pulled back to their last day — which is
    // what `on_last_day` is for, and what RFC 5545 does with BYMONTHDAY=31.
    let mut thirty_first = rule(RecurrenceFrequency::Monthly);
    thirty_first.month_day = Some(31);

    assert_eq!(
        series(&thirty_first, "2026-01-31", 5),
        [
            "2026-01-31",
            "2026-03-31",
            "2026-05-31",
            "2026-07-31",
            "2026-08-31",
        ]
    );
}

#[test]
fn the_last_day_of_the_month_follows_the_month_it_lands_in() {
    let mut month_end = rule(RecurrenceFrequency::Monthly);
    month_end.on_last_day = true;

    // 28, 31 and 30 in a row: the one position no fixed day number can say.
    assert_eq!(
        series(&month_end, "2026-01-31", 6),
        [
            "2026-01-31",
            "2026-02-28",
            "2026-03-31",
            "2026-04-30",
            "2026-05-31",
            "2026-06-30",
        ]
    );
}

#[test]
fn the_last_day_of_february_follows_the_leap_year() {
    let mut month_end = rule(RecurrenceFrequency::Monthly);
    month_end.on_last_day = true;
    month_end.interval = 12;

    assert_eq!(
        series(&month_end, "2027-02-28", 3),
        ["2027-02-28", "2028-02-29", "2029-02-28"]
    );
}

#[test]
fn the_last_day_of_the_month_is_the_last_day_whatever_the_anchor_was() {
    // Anchored on the 15th, which is nowhere near the end: the rule says
    // "the last day", so every occurrence after the anchor is one.
    let mut month_end = rule(RecurrenceFrequency::Monthly);
    month_end.on_last_day = true;

    assert_eq!(
        series(&month_end, "2026-01-15", 3),
        ["2026-01-15", "2026-01-31", "2026-02-28"]
    );
}

#[test]
fn a_yearly_rule_on_a_leap_day_waits_for_the_next_leap_year() {
    assert_eq!(
        series(&rule(RecurrenceFrequency::Yearly), "2024-02-29", 3),
        ["2024-02-29", "2028-02-29", "2032-02-29"]
    );
}

#[test]
fn a_yearly_rule_keeps_its_day_across_the_years() {
    let mut every_other_year = rule(RecurrenceFrequency::Yearly);
    every_other_year.interval = 2;

    assert_eq!(
        series(&every_other_year, "2026-09-01", 3),
        ["2026-09-01", "2028-09-01", "2030-09-01"]
    );
}

#[test]
fn every_working_day_steps_over_the_weekend() {
    // Anchored on a Friday: the next working day is the Monday.
    assert_eq!(
        series(&rule(RecurrenceFrequency::Workday), "2026-07-24", 4),
        ["2026-07-24", "2026-07-27", "2026-07-28", "2026-07-29"]
    );
}

#[test]
fn every_n_working_days_counts_in_working_days_not_in_days() {
    let mut every_other = rule(RecurrenceFrequency::Workday);
    every_other.interval = 2;

    // From Thursday: Friday is one working day on, Monday is two.
    assert_eq!(
        series(&every_other, "2026-07-23", 4),
        ["2026-07-23", "2026-07-27", "2026-07-29", "2026-07-31"]
    );
}

#[test]
fn the_anchor_is_an_occurrence_even_on_a_day_the_pattern_never_names() {
    // A working-day rule anchored on a Saturday. RFC 5545 reads DTSTART the
    // same way, so an exported file expands to this series too.
    assert_eq!(
        series(&rule(RecurrenceFrequency::Workday), "2026-07-25", 3),
        ["2026-07-25", "2026-07-27", "2026-07-28"]
    );
}

#[test]
fn an_end_date_keeps_its_own_day_and_stops_after_it() {
    let mut until_friday = rule(RecurrenceFrequency::Daily);
    until_friday.until = Some("2026-07-25".to_owned());

    assert_eq!(
        series(&until_friday, "2026-07-23", 10),
        ["2026-07-23", "2026-07-24", "2026-07-25"]
    );
}

#[test]
fn an_end_date_before_the_anchor_ends_the_series_at_once() {
    let mut already_over = rule(RecurrenceFrequency::Daily);
    already_over.until = Some("2026-07-01".to_owned());

    assert!(series(&already_over, "2026-07-23", 5).is_empty());
}

#[test]
fn a_count_includes_the_anchor() {
    let mut three_times = rule(RecurrenceFrequency::Daily);
    three_times.count = Some(3);

    assert_eq!(
        series(&three_times, "2026-07-23", 10),
        ["2026-07-23", "2026-07-24", "2026-07-25"]
    );
}

#[test]
fn a_count_does_not_spend_itself_on_a_month_that_was_skipped() {
    let mut four_times = rule(RecurrenceFrequency::Monthly);
    four_times.month_day = Some(31);
    four_times.count = Some(4);

    assert_eq!(
        series(&four_times, "2026-01-31", 10),
        ["2026-01-31", "2026-03-31", "2026-05-31", "2026-07-31"]
    );
}

#[test]
fn a_rule_carrying_both_ends_stops_at_whichever_comes_first() {
    // The contract states both as stopping conditions, so both hold. The
    // calendar export can only write one of the two (RFC 5545 forbids both)
    // and keeps the end date; a rule that carries both therefore repeats
    // longer in an exported file than in the app.
    let mut count_first = rule(RecurrenceFrequency::Daily);
    count_first.until = Some("2026-12-31".to_owned());
    count_first.count = Some(2);

    assert_eq!(
        series(&count_first, "2026-07-23", 10),
        ["2026-07-23", "2026-07-24"]
    );

    let mut date_first = rule(RecurrenceFrequency::Daily);
    date_first.until = Some("2026-07-24".to_owned());
    date_first.count = Some(99);

    assert_eq!(
        series(&date_first, "2026-07-23", 10),
        ["2026-07-23", "2026-07-24"]
    );
}

#[test]
fn an_unreadable_end_date_is_no_end_date() {
    // The field is a free-form string that nothing validates, and the export
    // ignores one it cannot read; refusing the rule instead would stop a
    // repeat the user can still see and correct.
    let mut nonsense_end = rule(RecurrenceFrequency::Daily);
    nonsense_end.until = Some("2026-02-31".to_owned());

    assert_eq!(
        series(&nonsense_end, "2026-07-23", 2),
        ["2026-07-23", "2026-07-24"]
    );
}

#[test]
fn asking_from_before_the_anchor_answers_with_the_anchor() {
    assert_eq!(
        next_date_only(&rule(RecurrenceFrequency::Daily), "2026-07-23", "2026-01-01"),
        Ok(Some("2026-07-23".to_owned()))
    );
}

#[test]
fn asking_from_far_ahead_skips_straight_to_the_day_after() {
    let mut mwf = rule(RecurrenceFrequency::Weekly);
    mwf.weekdays = vec![Weekday::Monday, Weekday::Wednesday, Weekday::Friday];

    assert_eq!(
        next_date_only(&mwf, "2026-07-23", "2027-03-02"),
        Ok(Some("2027-03-03".to_owned()))
    );
}

#[test]
fn a_day_of_the_month_no_month_ever_has_ends_the_search() {
    // The 31st of February, every February: a shape the contract accepts and
    // the calendar never satisfies. The search stops instead of running for
    // ever.
    let mut impossible = rule(RecurrenceFrequency::Monthly);
    impossible.month_day = Some(31);
    impossible.interval = 12;

    assert_eq!(
        series(&impossible, "2026-02-15", 5),
        ["2026-02-15"],
        "only the anchor, which is an occurrence by definition"
    );
}

/// The same rule, counted on the lunar calendar.
fn lunar_rule(frequency: RecurrenceFrequency) -> RecurrenceRule {
    RecurrenceRule {
        calendar: RecurrenceCalendar::Lunar,
        ..rule(frequency)
    }
}

/// How a date reads on the lunar calendar, as month, leap and day.
fn reading(date: &str) -> (u32, bool, u32) {
    let lunar = Sky::new().from_civil(parse_date(date).expect("a readable date"))
        .expect("a date inside the supported years");
    (lunar.month, lunar.leap, lunar.day)
}

#[test]
fn a_lunar_yearly_rule_keeps_its_lunar_date_and_moves_on_the_civil_one() {
    // The first day of the first month — the one lunar date everybody
    // knows the civil dates of. A civil yearly rule would answer
    // 2027-02-17, which is nine days into the second month.
    assert_eq!(
        series(&lunar_rule(RecurrenceFrequency::Yearly), "2026-02-17", 5),
        [
            "2026-02-17",
            "2027-02-06",
            "2028-01-26",
            "2029-02-13",
            "2030-02-03"
        ]
    );
}

#[test]
fn a_lunar_yearly_rule_on_a_leap_month_waits_for_the_year_that_has_one() {
    // 2023 holds a leap second month; most years do not, so the rule skips
    // them rather than landing in the ordinary second month, which is a
    // different date from the one the user picked. The same reading a
    // civil rule anchored on 29 February gets.
    let leap = Sky::new().month_of_year(2023, 2, true).expect("2023 holds a leap second month");
    let anchor = format_iso_date(day_in(&leap, 1).expect("its first day"));

    let dates = series(&lunar_rule(RecurrenceFrequency::Yearly), &anchor, 2);
    assert_eq!(dates[0], anchor);
    assert_eq!(reading(&dates[1]), (2, true, 1));

    let years_apart = parse_date(&dates[1]).expect("a readable date").year - 2023;
    assert!(
        years_apart > 10,
        "a leap month is not a yearly event, but this one came back after {years_apart} years"
    );
}

#[test]
fn a_lunar_monthly_rule_lands_on_the_same_day_of_each_lunar_month() {
    // Anchored on the first day of the first month of 2026, which is
    // 2026-02-17. The civil dates are 29 or 30 days apart in no pattern —
    // that irregularity is the whole reason this cannot be a civil rule.
    let dates = series(&lunar_rule(RecurrenceFrequency::Monthly), "2026-02-17", 4);
    let readings: Vec<(u32, bool, u32)> = dates.iter().map(|date| reading(date)).collect();

    assert_eq!(
        readings,
        [(1, false, 1), (2, false, 1), (3, false, 1), (4, false, 1)]
    );
}

#[test]
fn a_lunar_monthly_rule_counts_a_leap_month_as_a_month() {
    // The month after the second month of 2023 is its leap second month,
    // not the third: "every month" means every month the calendar has.
    let second = Sky::new().month_of_year(2023, 2, false).expect("a second month");
    let anchor = format_iso_date(day_in(&second, 1).expect("its first day"));

    let dates = series(&lunar_rule(RecurrenceFrequency::Monthly), &anchor, 3);
    let readings: Vec<(u32, bool, u32)> = dates.iter().map(|date| reading(date)).collect();

    assert_eq!(readings, [(2, false, 1), (2, true, 1), (3, false, 1)]);
}

#[test]
fn a_lunar_month_too_short_for_the_day_is_skipped_rather_than_moved() {
    // The thirtieth of a 29-day month is this calendar's 31 February. The
    // months that have one are not evenly spaced, so some steps are one
    // month and others are several.
    let mut thirtieth = lunar_rule(RecurrenceFrequency::Monthly);
    thirtieth.month_day = Some(30);

    let dates = series(&thirtieth, "2026-02-17", 5);
    assert!(
        dates.iter().skip(1).all(|date| reading(date).2 == 30),
        "{dates:?}"
    );
    assert!(
        dates.windows(2).any(|pair| {
            let gap = |date: &str| {
                todo_domain::civil::days_from_civil(parse_date(date).expect("a readable date"))
            };
            gap(&pair[1]) - gap(&pair[0]) > 31
        }),
        "a month without a thirtieth should have been passed over: {dates:?}"
    );
}

#[test]
fn the_last_day_of_a_lunar_month_is_its_own_length() {
    let mut month_end = lunar_rule(RecurrenceFrequency::Monthly);
    month_end.on_last_day = true;

    let dates = series(&month_end, "2026-02-17", 4);
    for date in dates.iter().skip(1) {
        let lunar_date =
            Sky::new().from_civil(parse_date(date).expect("a readable date")).expect("in range");
        let month = Sky::new().month_of_year(lunar_date.year, lunar_date.month, lunar_date.leap)
            .expect("its own month");
        assert_eq!(lunar_date.day, month.length, "{date}");
    }
}

#[test]
fn a_day_and_a_week_are_the_same_in_both_calendars() {
    // Only "monthly" and "yearly" mean something different on the lunar
    // calendar, so a daily or weekly rule marked lunar answers exactly as
    // the Gregorian one does rather than being refused.
    assert_eq!(
        series(&lunar_rule(RecurrenceFrequency::Daily), "2026-07-23", 3),
        series(&rule(RecurrenceFrequency::Daily), "2026-07-23", 3)
    );
    assert_eq!(
        series(&lunar_rule(RecurrenceFrequency::Weekly), "2026-07-23", 3),
        series(&rule(RecurrenceFrequency::Weekly), "2026-07-23", 3)
    );
}

#[test]
fn a_lunar_rule_outside_the_years_the_calendar_is_known_for_is_refused() {
    // Not answered in the wrong calendar and not quietly ended: a series
    // that has run out of data says so.
    let yearly = lunar_rule(RecurrenceFrequency::Yearly);

    assert_eq!(
        next_date_only(&yearly, "2101-02-17", "2101-02-17"),
        Err(RecurrenceError::LunarOutOfRange)
    );
    assert_eq!(
        next_date_only(&yearly, "2098-02-17", "2100-12-31"),
        Err(RecurrenceError::LunarOutOfRange)
    );
    // Inside the range the same rule answers.
    assert!(next_date_only(&yearly, "2098-02-17", "2098-02-17").is_ok());
}

#[test]
fn an_anchor_the_lunar_calendar_does_not_reach_is_refused_before_anything_else() {
    // The low end of the range, which an end date must not turn into an
    // empty series: the anchor cannot be read at all, so there is nothing to
    // say the series has ended.
    let mut until_2000 = lunar_rule(RecurrenceFrequency::Yearly);
    until_2000.until = Some("2000-01-01".to_owned());

    assert_eq!(
        next_date_only(&until_2000, "1928-06-01", "1928-06-01"),
        Err(RecurrenceError::LunarOutOfRange)
    );

    // A daily rule never opens the lunar calendar, so the same anchor is no
    // trouble there.
    assert_eq!(
        next_date_only(
            &lunar_rule(RecurrenceFrequency::Daily),
            "1928-06-01",
            "1928-06-01"
        ),
        Ok(Some("1928-06-02".to_owned()))
    );
}

#[test]
fn a_lunar_series_that_ends_before_the_calendar_does_ends_rather_than_fails() {
    // Both of these ask for an occurrence the rule could not have returned
    // anyway — one is past its end date, the other past its count — and
    // reporting the end of the calendar instead of the end of the rule is
    // the engine answering a question nobody asked. The Gregorian rules of
    // the same shape answer `Ok(None)`.
    let mut until_the_last_year = lunar_rule(RecurrenceFrequency::Yearly);
    until_the_last_year.until = Some("2100-12-31".to_owned());

    assert_eq!(
        next_date_only(&until_the_last_year, "2099-02-01", "2100-12-30"),
        Ok(None)
    );

    let mut once = lunar_rule(RecurrenceFrequency::Yearly);
    once.count = Some(1);

    assert_eq!(next_date_only(&once, "2100-02-09", "2100-02-09"), Ok(None));

    // The refusal is still there for the rule that carries neither: this one
    // really is asking for a year the calendar does not reach.
    assert_eq!(
        next_date_only(
            &lunar_rule(RecurrenceFrequency::Yearly),
            "2100-02-09",
            "2100-02-09"
        ),
        Err(RecurrenceError::LunarOutOfRange)
    );
}

#[test]
fn a_lunar_position_that_never_comes_round_again_ends_the_search() {
    // A leap tenth month last happened in 1984 and does not happen again
    // before the calendar ends, so a yearly rule anchored in one has the
    // anchor and nothing more. That is the same answer the Gregorian branch
    // gives "the 31st, every February" — and not a report that the calendar
    // stops in 2100, which is true but is not what went wrong.
    let leap = Sky::new().month_of_year(1984, 10, true).expect("1984 holds a leap tenth month");
    let anchor = format_iso_date(day_in(&leap, 1).expect("its first day"));
    let yearly = lunar_rule(RecurrenceFrequency::Yearly);

    assert_eq!(
        series(&yearly, &anchor, 5),
        [anchor.clone()],
        "only the anchor, which is an occurrence by definition"
    );
    assert_eq!(next_date_only(&yearly, &anchor, &anchor), Ok(None));
}

#[test]
fn an_answer_counted_past_the_published_years_says_so() {
    let workday = rule(RecurrenceFrequency::Workday);

    let inside = next_occurrence(&workday, "2026-07-23", "2026-07-23")
        .expect("a rule the engine can read")
        .expect("an occurrence");
    assert_eq!(inside.date, "2026-07-24");
    assert!(!inside.assumed_monday_to_friday);

    // The first day past the table. 2027-01-01 is a Friday and no notice
    // has been published saying it is new year's day, so the engine counts
    // it as a working day; the date is still the best answer there is, but
    // it is arithmetic rather than data and the answer carries that.
    let beyond = next_occurrence(&workday, "2026-12-31", "2026-12-31")
        .expect("a rule the engine can read")
        .expect("an occurrence");
    assert_eq!(beyond.date, "2027-01-01");
    assert!(beyond.assumed_monday_to_friday);
    assert_eq!(
        coverage(),
        Some((2024, 2026)),
        "the years to name when an answer says so"
    );

    // No other frequency reads the arrangement, so no other frequency can
    // have fallen back to the week.
    let daily = next_occurrence(&rule(RecurrenceFrequency::Daily), "2030-01-01", "2030-01-01")
        .expect("a rule the engine can read")
        .expect("an occurrence");
    assert!(!daily.assumed_monday_to_friday);
}

#[test]
fn a_rule_the_contract_refuses_is_refused_here_too() {
    // An interval of zero would leave the walk standing still.
    let mut standing_still = rule(RecurrenceFrequency::Daily);
    standing_still.interval = 0;

    assert_eq!(
        next_date_only(&standing_still, "2026-07-23", "2026-07-23"),
        Err(RecurrenceError::UnusableRule(
            ContractValidationError::InvalidRecurrence
        ))
    );

    let mut repeated_day = rule(RecurrenceFrequency::Weekly);
    repeated_day.weekdays = vec![Weekday::Monday, Weekday::Monday];

    assert_eq!(
        next_date_only(&repeated_day, "2026-07-23", "2026-07-23"),
        Err(RecurrenceError::UnusableRule(
            ContractValidationError::DuplicateEntry
        ))
    );
}

#[test]
fn a_date_the_engine_cannot_read_is_refused() {
    let daily = rule(RecurrenceFrequency::Daily);

    assert_eq!(
        next_date_only(&daily, "2026-02-31", "2026-07-23"),
        Err(RecurrenceError::UnreadableDate)
    );
    assert_eq!(
        next_date_only(&daily, "2026-07-23", "今天"),
        Err(RecurrenceError::UnreadableDate)
    );
    assert_eq!(
        next_date_only(&daily, "2026-07-23T10:15:00Z", "2026-07-23"),
        Ok(Some("2026-07-24".to_owned())),
        "a date followed by a time is still a date"
    );
}

#[test]
fn a_daylight_saving_change_moves_no_occurrence() {
    // A rule counts days on a wall calendar, so a day of 23 or 25 hours is
    // still one day. Both changeovers are covered: North America on
    // 2027-03-14, Europe on 2026-10-25.
    assert_eq!(
        series(&rule(RecurrenceFrequency::Daily), "2027-03-13", 3),
        ["2027-03-13", "2027-03-14", "2027-03-15"]
    );

    let mut weekly_across_the_change = rule(RecurrenceFrequency::Weekly);
    weekly_across_the_change.weekdays = vec![Weekday::Sunday];

    assert_eq!(
        series(&weekly_across_the_change, "2026-10-18", 3),
        ["2026-10-18", "2026-10-25", "2026-11-01"]
    );
}

#[test]
fn a_working_day_rule_works_the_saturdays_the_notice_names() {
    // 2026-02-14 is a Saturday everybody works, to pay for the nine days
    // off that follow it: the rule lands on it, then steps over the whole
    // spring festival to the Tuesday after it.
    assert_eq!(
        series(&rule(RecurrenceFrequency::Workday), "2026-02-13", 4),
        ["2026-02-13", "2026-02-14", "2026-02-24", "2026-02-25"]
    );

    // The same again in May, where the make-up Saturday stands alone: the
    // Sunday after it is still a Sunday.
    assert_eq!(
        series(&rule(RecurrenceFrequency::Workday), "2026-05-08", 3),
        ["2026-05-08", "2026-05-09", "2026-05-11"]
    );
}

#[test]
fn a_working_day_rule_steps_over_a_holiday_that_falls_on_a_weekday() {
    // 2026-04-06 is a Monday off for the qingming festival, so the working
    // day after Friday the 3rd is the Tuesday.
    assert_eq!(
        series(&rule(RecurrenceFrequency::Workday), "2026-04-03", 3),
        ["2026-04-03", "2026-04-07", "2026-04-08"]
    );

    // And the seven days of the national holiday, which swallow a whole
    // working week.
    assert_eq!(
        series(&rule(RecurrenceFrequency::Workday), "2026-09-30", 2),
        ["2026-09-30", "2026-10-08"]
    );
}

#[test]
fn every_n_working_days_counts_the_arrangement_too() {
    let mut every_other = rule(RecurrenceFrequency::Workday);
    every_other.interval = 2;

    // From the Thursday before the spring festival: Friday the 13th is one
    // working day on and the make-up Saturday is two, then the next two
    // working days are the 24th and the 25th.
    assert_eq!(
        series(&every_other, "2026-02-12", 3),
        ["2026-02-12", "2026-02-14", "2026-02-25"]
    );
}

#[test]
fn beyond_the_published_years_a_working_day_is_monday_to_friday_again() {
    // No arrangement has been published for 2027, so the engine answers
    // from the week alone: the first of October is a Friday and the rule
    // does not know it is a holiday. Such an answer says so — see
    // `an_answer_counted_past_the_published_years_says_so`.
    assert_eq!(coverage(), Some((2024, 2026)));
    assert_eq!(
        series(&rule(RecurrenceFrequency::Workday), "2027-10-01", 2),
        ["2027-10-01", "2027-10-04"]
    );
}

#[test]
fn a_long_working_day_walk_holds_its_footing_across_many_positions() {
    // One `next_occurrence` call now carries a cursor across all its
    // positions instead of recounting from the anchor at each; a long walk
    // is where a dropped or repeated step would show. Past 2026 no
    // arrangement is published, so a working day is Monday to Friday: every
    // gap is one day inside a week or three across a weekend, and never a
    // weekend day itself.
    let dates = series(&rule(RecurrenceFrequency::Workday), "2027-01-01", 300);
    assert_eq!(dates.len(), 300);
    assert_eq!(dates[0], "2027-01-01");
    for pair in dates.windows(2) {
        let earlier = parse_date(&pair[0]).expect("a readable date");
        let later = parse_date(&pair[1]).expect("a readable date");
        let gap = todo_domain::civil::days_from_civil(later) - todo_domain::civil::days_from_civil(earlier);
        assert!(gap == 1 || gap == 3, "{pair:?} are {gap} days apart");
        assert!(
            todo_domain::civil::weekday_index(later) < 5,
            "{} is a weekend",
            pair[1]
        );
    }
}

#[test]
fn a_long_lunar_monthly_walk_stays_on_its_day_across_many_positions() {
    // The lunar monthly cursor steps one month on from the last rather than
    // recounting the whole way from the anchor; over a long walk every
    // landing must still read back as the first day of its lunar month, and
    // the civil gaps must be the 29 or 30 days a lunar month runs — a lost or
    // doubled month would break one or the other.
    let dates = series(&lunar_rule(RecurrenceFrequency::Monthly), "2026-02-17", 120);
    assert_eq!(dates.len(), 120);
    for date in &dates {
        assert_eq!(reading(date).2, 1, "{date} is not the first of its lunar month");
    }
    for pair in dates.windows(2) {
        let earlier = parse_date(&pair[0]).expect("a readable date");
        let later = parse_date(&pair[1]).expect("a readable date");
        let gap = todo_domain::civil::days_from_civil(later) - todo_domain::civil::days_from_civil(earlier);
        assert!(gap == 29 || gap == 30, "{pair:?} are {gap} days apart");
    }
}

#[test]
fn the_error_says_which_rule_it_refused() {
    assert_eq!(
        RecurrenceError::UnusableRule(ContractValidationError::InvalidRecurrence).message(),
        "the recurrence rule is not a usable combination"
    );
    assert_eq!(
        RecurrenceError::LunarOutOfRange.message(),
        "the lunar calendar is only known from 1929 to 2100"
    );
}

#[test]
fn every_day_from_after_up_to_the_answer_is_answered_the_same() {
    let mut monthly = rule(RecurrenceFrequency::Monthly);
    monthly.interval = 2;
    let answer = next_date_only(&monthly, "2026-01-31", "2026-01-31").expect("a usable rule");
    assert_eq!(answer.as_deref(), Some("2026-03-31"));
    let start = parse_date("2026-01-31").unwrap();
    for step in 0..59 {
        let asked = format_iso_date(add_days(start, step));
        assert_eq!(next_date_only(&monthly, "2026-01-31", &asked).unwrap(), answer, "asked from {asked}");
    }
    // Before the anchor, the anchor itself.
    assert_eq!(
        next_date_only(&monthly, "2026-01-31", "2025-12-01").unwrap().as_deref(),
        Some("2026-01-31")
    );
}
