use todo_domain::civil::{add_days, civil_from_days, days_from_civil, parse_date, CivilDate};
use todo_domain::contracts::{
    RecurrenceCalendar, RecurrenceFrequency, RecurrenceRule, Reminder, Todo, TodoStatus, Weekday,
};
use todo_domain::ics::{
    build_calendar, export_file_name, parse_instant, parse_offset, ZonedInstant, MAX_LINE_OCTETS,
};

const PRODUCT_ID: &str = "-//Just Do//Todo//EN";
const CRLF: &str = "\r\n";



/// 2026-07-23T10:15:00Z, the moment every test exports at.
const EXPORTED_AT: i64 = 1_784_801_700;

fn todo(id: &str, title: &str) -> Todo {
    Todo {
        id: id.to_owned(),
        title: title.to_owned(),
        status: TodoStatus::Open,
        created_at: "2026-07-16T00:00:00Z".to_owned(),
        completed_at: None,
        archived_at: None,
        due_date: None,
        reminders: Vec::new(),
        notes: None,
        start_date: None,
        starts_at: None,
        ends_at: None,
        estimated_minutes: None,
        recurrence: None,
        list_id: None,
        important: None,
        urgent: None,
        tag_ids: Vec::new(),
        subtasks: Vec::new(),
        attachments: Vec::new(),
        depends_on: Vec::new(),
        check_ins: Vec::new(),
    }
}

fn weekly(weekdays: Vec<Weekday>) -> RecurrenceRule {
    RecurrenceRule {
        frequency: RecurrenceFrequency::Weekly,
        interval: 1,
        weekdays,
        month_day: None,
        on_last_day: false,
        calendar: RecurrenceCalendar::Gregorian,
        until: None,
        count: None,
    }
}

/// The unfolded content lines, which is what an assertion wants to look at.
fn lines(content: &str) -> Vec<String> {
    let mut lines: Vec<String> = Vec::new();
    for raw in content.split(CRLF).filter(|line| !line.is_empty()) {
        match raw.strip_prefix(' ') {
            Some(continuation) => lines
                .last_mut()
                .expect("a continuation line always follows a line")
                .push_str(continuation),
            None => lines.push(raw.to_owned()),
        }
    }
    lines
}

fn rrule_of(todo: Todo) -> Option<String> {
    let calendar = build_calendar(&[todo], EXPORTED_AT);
    lines(&calendar.content)
        .into_iter()
        .find(|line| line.starts_with("RRULE:"))
}

#[test]
fn the_wrapper_carries_what_rfc_5545_requires() {
    let calendar = build_calendar(&[], EXPORTED_AT);
    let lines = lines(&calendar.content);

    assert_eq!(lines[0], "BEGIN:VCALENDAR");
    assert!(lines.contains(&"VERSION:2.0".to_owned()));
    assert!(lines.contains(&format!("PRODID:{PRODUCT_ID}")));
    assert!(lines.contains(&"CALSCALE:GREGORIAN".to_owned()));
    assert_eq!(lines.last().expect("a closing line"), "END:VCALENDAR");
    assert_eq!(calendar.event_count, 0);
}

#[test]
fn every_line_ends_with_crlf() {
    let mut dated = todo("todo-1", "交周报");
    dated.due_date = Some("2026-07-23".to_owned());

    let calendar = build_calendar(&[dated], EXPORTED_AT);

    assert!(calendar.content.ends_with(CRLF));
    // A bare LF anywhere would break the line-break rule of RFC 5545 3.1.
    assert_eq!(
        calendar.content.matches('\n').count(),
        calendar.content.matches(CRLF).count()
    );
}

#[test]
fn a_due_date_becomes_a_whole_day_event() {
    let mut dated = todo("todo-1", "交周报");
    dated.due_date = Some("2026-07-23".to_owned());

    let calendar = build_calendar(&[dated], EXPORTED_AT);
    let lines = lines(&calendar.content);

    assert_eq!(calendar.event_count, 1);
    assert!(lines.contains(&"UID:todo-1@just-do.local".to_owned()));
    assert!(lines.contains(&"DTSTAMP:20260723T101500Z".to_owned()));
    assert!(lines.contains(&"SUMMARY:交周报".to_owned()));
    assert!(lines.contains(&"DTSTART;VALUE=DATE:20260723".to_owned()));
    // Non-inclusive end: a one-day event ends on the following day.
    assert!(lines.contains(&"DTEND;VALUE=DATE:20260724".to_owned()));
}

#[test]
fn a_timed_block_is_written_in_utc() {
    let mut block = todo("todo-2", "评审会");
    block.due_date = Some("2026-07-23".to_owned());
    block.starts_at = Some("2026-07-23T09:00:00.000Z".to_owned());
    block.ends_at = Some("2026-07-23T10:30:00Z".to_owned());

    let calendar = build_calendar(&[block], EXPORTED_AT);
    let lines = lines(&calendar.content);

    // The explicit block wins over the due date.
    assert!(lines.contains(&"DTSTART:20260723T090000Z".to_owned()));
    assert!(lines.contains(&"DTEND:20260723T103000Z".to_owned()));
}

#[test]
fn an_offset_is_carried_back_to_utc() {
    let mut block = todo("todo-3", "站会");
    block.starts_at = Some("2026-07-23T09:00:00+08:00".to_owned());

    let calendar = build_calendar(&[block], EXPORTED_AT);

    assert!(lines(&calendar.content).contains(&"DTSTART:20260723T010000Z".to_owned()));
}

#[test]
fn an_end_that_is_not_after_the_start_is_dropped() {
    let mut block = todo("todo-4", "错配的时间段");
    block.starts_at = Some("2026-07-23T09:00:00Z".to_owned());
    block.ends_at = Some("2026-07-23T09:00:00Z".to_owned());

    let calendar = build_calendar(&[block], EXPORTED_AT);

    assert!(!calendar.content.contains("DTEND"));
}

#[test]
fn a_reminder_only_task_still_lands_on_the_calendar() {
    let mut reminded = todo("todo-5", "吃药");
    reminded.reminders = vec![Reminder { at: "2026-07-24T12:00:00Z".to_owned(), offset: 0 }];

    let calendar = build_calendar(&[reminded], EXPORTED_AT);
    let lines = lines(&calendar.content);

    assert_eq!(calendar.event_count, 1);
    assert!(lines.contains(&"DTSTART:20260724T120000Z".to_owned()));
    // Nothing said how long it takes, so nothing is claimed.
    assert!(!calendar.content.contains("DTEND"));
}

#[test]
fn a_task_without_any_date_is_left_out() {
    let undated = todo("todo-6", "总有一天");
    let mut unreadable = todo("todo-7", "坏日期");
    unreadable.due_date = Some("2026-02-31".to_owned());
    let mut dated = todo("todo-8", "有日期");
    dated.due_date = Some("2026-07-23".to_owned());

    let calendar = build_calendar(&[undated, unreadable, dated], EXPORTED_AT);

    assert_eq!(calendar.event_count, 1);
    assert!(calendar.content.contains("UID:todo-8@just-do.local"));
    assert!(!calendar.content.contains("todo-6"));
    assert!(!calendar.content.contains("todo-7"));
}

#[test]
fn text_values_are_escaped() {
    let mut awkward = todo("todo-9", "买牛奶, 面包; 还有\\糖");
    awkward.due_date = Some("2026-07-23".to_owned());
    awkward.notes = Some("第一行\r\n第二行".to_owned());

    let calendar = build_calendar(&[awkward], EXPORTED_AT);
    let lines = lines(&calendar.content);

    assert!(lines.contains(&"SUMMARY:买牛奶\\, 面包\\; 还有\\\\糖".to_owned()));
    assert!(lines.contains(&"DESCRIPTION:第一行\\n第二行".to_owned()));
}

#[test]
fn long_lines_fold_at_75_octets_without_splitting_a_character() {
    let mut long = todo("todo-10", &"日程".repeat(60));
    long.due_date = Some("2026-07-23".to_owned());

    let calendar = build_calendar(&[long], EXPORTED_AT);

    for line in calendar.content.split(CRLF) {
        assert!(line.len() <= MAX_LINE_OCTETS, "{} octets: {line}", line.len());
    }
    // Unfolding gives the title back intact, which is only true if no
    // multi-byte character was cut in half.
    assert!(lines(&calendar.content).contains(&format!("SUMMARY:{}", "日程".repeat(60))));
}

#[test]
fn a_weekly_rule_names_its_days() {
    let mut repeating = todo("todo-11", "健身");
    repeating.due_date = Some("2026-07-23".to_owned());
    repeating.recurrence = Some(weekly(vec![
        Weekday::Monday,
        Weekday::Wednesday,
        Weekday::Friday,
    ]));

    assert_eq!(
        rrule_of(repeating),
        Some("RRULE:FREQ=WEEKLY;BYDAY=MO,WE,FR".to_owned())
    );
}

#[test]
fn a_weekly_rule_without_days_leaves_byday_to_the_start() {
    let mut repeating = todo("todo-12", "周会");
    repeating.due_date = Some("2026-07-23".to_owned());
    let mut rule = weekly(Vec::new());
    rule.interval = 2;
    repeating.recurrence = Some(rule);

    assert_eq!(
        rrule_of(repeating),
        Some("RRULE:FREQ=WEEKLY;INTERVAL=2".to_owned())
    );
}

#[test]
fn a_monthly_rule_says_which_day() {
    let mut on_the_tenth = todo("todo-13", "还款");
    on_the_tenth.due_date = Some("2026-08-10".to_owned());
    let mut rule = weekly(Vec::new());
    rule.frequency = RecurrenceFrequency::Monthly;
    rule.month_day = Some(10);
    on_the_tenth.recurrence = Some(rule);

    assert_eq!(
        rrule_of(on_the_tenth),
        Some("RRULE:FREQ=MONTHLY;BYMONTHDAY=10".to_owned())
    );
}

#[test]
fn the_last_day_of_a_month_counts_back_from_the_end() {
    let mut month_end = todo("todo-14", "月结");
    month_end.due_date = Some("2026-07-31".to_owned());
    let mut rule = weekly(Vec::new());
    rule.frequency = RecurrenceFrequency::Monthly;
    rule.on_last_day = true;
    month_end.recurrence = Some(rule);

    assert_eq!(
        rrule_of(month_end),
        Some("RRULE:FREQ=MONTHLY;BYMONTHDAY=-1".to_owned())
    );
}

#[test]
fn a_daily_rule_counts_its_interval_and_occurrences() {
    let mut every_third_day = todo("todo-15", "浇花");
    every_third_day.due_date = Some("2026-07-23".to_owned());
    let mut rule = weekly(Vec::new());
    rule.frequency = RecurrenceFrequency::Daily;
    rule.interval = 3;
    rule.count = Some(10);
    every_third_day.recurrence = Some(rule);

    assert_eq!(
        rrule_of(every_third_day),
        Some("RRULE:FREQ=DAILY;INTERVAL=3;COUNT=10".to_owned())
    );
}

#[test]
fn a_yearly_rule_is_the_plain_one() {
    let mut birthday = todo("todo-16", "生日");
    birthday.due_date = Some("2026-09-01".to_owned());
    let mut rule = weekly(Vec::new());
    rule.frequency = RecurrenceFrequency::Yearly;
    birthday.recurrence = Some(rule);

    assert_eq!(rrule_of(birthday), Some("RRULE:FREQ=YEARLY".to_owned()));
}

#[test]
fn an_end_date_wins_over_a_count_and_matches_the_start_value_type() {
    let mut all_day = todo("todo-17", "打卡");
    all_day.due_date = Some("2026-07-23".to_owned());
    let mut rule = weekly(Vec::new());
    rule.frequency = RecurrenceFrequency::Daily;
    rule.until = Some("2026-12-31".to_owned());
    rule.count = Some(5);
    all_day.recurrence = Some(rule.clone());

    assert_eq!(
        rrule_of(all_day),
        Some("RRULE:FREQ=DAILY;UNTIL=20261231".to_owned())
    );

    let mut timed = todo("todo-18", "打卡");
    timed.starts_at = Some("2026-07-23T09:00:00Z".to_owned());
    timed.recurrence = Some(rule);

    assert_eq!(
        rrule_of(timed),
        Some("RRULE:FREQ=DAILY;UNTIL=20261231T235959Z".to_owned())
    );
}

#[test]
fn every_working_day_is_the_closest_standard_rule() {
    let mut workday = todo("todo-19", "日报");
    workday.due_date = Some("2026-07-23".to_owned());
    let mut rule = weekly(Vec::new());
    rule.frequency = RecurrenceFrequency::Workday;
    workday.recurrence = Some(rule);

    assert_eq!(
        rrule_of(workday),
        Some("RRULE:FREQ=WEEKLY;BYDAY=MO,TU,WE,TH,FR".to_owned())
    );
}

#[test]
fn rules_rfc_5545_cannot_say_export_as_a_single_event() {
    let mut lunar = todo("todo-20", "农历生日");
    lunar.due_date = Some("2026-09-01".to_owned());
    let mut lunar_rule = weekly(Vec::new());
    lunar_rule.frequency = RecurrenceFrequency::Yearly;
    lunar_rule.calendar = RecurrenceCalendar::Lunar;
    lunar.recurrence = Some(lunar_rule);

    let mut every_other_workday = todo("todo-21", "隔个工作日");
    every_other_workday.due_date = Some("2026-07-23".to_owned());
    let mut workday_rule = weekly(Vec::new());
    workday_rule.frequency = RecurrenceFrequency::Workday;
    workday_rule.interval = 2;
    every_other_workday.recurrence = Some(workday_rule);

    assert_eq!(rrule_of(lunar.clone()), None);
    assert_eq!(rrule_of(every_other_workday.clone()), None);
    // The events themselves still export.
    let calendar = build_calendar(&[lunar, every_other_workday], EXPORTED_AT);
    assert_eq!(calendar.event_count, 2);
}

#[test]
fn the_file_name_is_the_moment_it_was_written() {
    assert_eq!(export_file_name(EXPORTED_AT, 0), "todo-20260723T101500Z.ics");
}

#[test]
fn a_taken_file_name_gets_a_counter_rather_than_overwriting() {
    // Two exports inside the same second want the same name; the caller
    // comes back with the next attempt, and every one of them is distinct.
    let names: Vec<String> = (0..4).map(|attempt| export_file_name(EXPORTED_AT, attempt)).collect();

    assert_eq!(
        names,
        vec![
            "todo-20260723T101500Z.ics".to_owned(),
            "todo-20260723T101500Z-2.ics".to_owned(),
            "todo-20260723T101500Z-3.ics".to_owned(),
            "todo-20260723T101500Z-4.ics".to_owned(),
        ]
    );
}

#[test]
fn ics_civil_dates_round_trip_across_the_awkward_boundaries() {
    for (year, month, day) in [
        (1970, 1, 1),
        (2000, 2, 29),
        (2026, 12, 31),
        (2100, 3, 1),
        (1969, 12, 31),
    ] {
        let date = CivilDate { year, month, day };
        assert_eq!(civil_from_days(days_from_civil(date)), date);
    }

    assert_eq!(days_from_civil(CivilDate { year: 1970, month: 1, day: 1 }), 0);
    assert_eq!(
        add_days(CivilDate { year: 2026, month: 12, day: 31 }, 1),
        CivilDate { year: 2027, month: 1, day: 1 }
    );
    // A day that does not exist must not round trip, or the parser would
    // accept 31 February.
    assert_ne!(
        civil_from_days(days_from_civil(CivilDate { year: 2026, month: 2, day: 31 })),
        CivilDate { year: 2026, month: 2, day: 31 }
    );
}

#[test]
fn instants_are_read_in_every_shape_this_repository_writes() {
    let at = |value: &str| parse_instant(value).map(|instant| instant.unix_seconds);

    assert_eq!(at("1970-01-01T00:00:00Z"), Some(0));
    assert_eq!(at("1970-01-01T00:00:00.123Z"), Some(0));
    assert_eq!(at("1970-01-01T08:00:00+08:00"), Some(0));
    assert_eq!(at("1970-01-01T08:00:00+0800"), Some(0));
    assert_eq!(at("1969-12-31T23:00:00-01:00"), Some(0));
    assert_eq!(at("1970-01-01T00:00:00"), Some(0));
    assert_eq!(at("2026-07-23"), None);
    assert_eq!(at("not a time"), None);
    assert_eq!(at("1970-01-01T25:00:00Z"), None);

    // The zone travels with the instant, because UNTIL needs it.
    assert_eq!(
        parse_instant("1970-01-01T08:00:00+08:00"),
        Some(ZonedInstant { unix_seconds: 0, offset_seconds: 8 * 3_600 })
    );
    assert_eq!(
        parse_instant("1969-12-31T16:00:00-08:00"),
        Some(ZonedInstant { unix_seconds: 0, offset_seconds: -8 * 3_600 })
    );
    assert_eq!(
        parse_instant("1970-01-01T00:00:00Z"),
        Some(ZonedInstant { unix_seconds: 0, offset_seconds: 0 })
    );
}

/// The four slices that used to be taken by byte index. Every one of these
/// values passes the ASCII guards in front of it and then lands on a
/// character boundary the guard says nothing about, which used to abort the
/// whole export inside a Tauri command.
#[test]
fn a_value_that_is_not_ascii_is_refused_rather_than_panicking() {
    // `&value[8..10]` — the day.
    assert_eq!(parse_date("2026-07-日期"), None);
    // `&value[5..7]` — the month, reached through a multi-byte year.
    assert_eq!(parse_date("二〇二六-07-23"), None);
    assert_eq!(parse_date("2026-07-2日"), None);
    // `&value[17..19]` — the seconds.
    assert_eq!(parse_instant("2026-07-23T10:15:0日"), None);
    // `&value[19..]` — what follows the seconds.
    assert_eq!(parse_instant("2026-07-23T10:15:00日"), None);
    // `split_at(1)` inside the zone designator, both lengths it accepts.
    assert_eq!(parse_instant("2026-07-23T10:15:00日本語"), None);
    assert_eq!(parse_instant("2026-07-23T10:15:00+0日"), None);
    assert_eq!(parse_instant("2026-07-23T10:15:00+00:日"), None);
    assert_eq!(parse_instant("2026-07-23T10:15:00.5日"), None);
    assert_eq!(parse_offset("日本"), None);
    assert_eq!(parse_offset("+0日"), None);
}

/// A blunt sweep over the shapes a stored string can take. `Todo::validate`
/// checks none of these fields, so anything at all can arrive here through
/// sync or an older database; the only requirement is that the export keeps
/// running.
#[test]
fn no_string_at_all_can_stop_an_export() {
    let seeds = [
        "",
        "Z",
        "z",
        "日",
        "日本語のとても長い文字列です",
        "2026-07-23",
        "2026-07-23T10:15:00Z",
        "2026-07-23T10:15:00+08:00",
        "🎉🎉🎉🎉🎉🎉🎉🎉🎉🎉",
        "2026-07-23T10:15:00🎉",
        "2026-07-23T10:15:00.🎉",
        "2026-07-23T10:15:00+🎉",
        "20\u{0301}26-07-23T10:15:00Z",
        "\u{feff}2026-07-23T10:15:00Z",
        "----------",
        "-------------------",
    ];
    // Truncation is where a multi-byte character is most likely to be cut,
    // so every prefix of every seed — by byte, not by character — is tried.
    let mut values: Vec<String> = Vec::new();
    for seed in seeds {
        values.push(seed.to_owned());
        for end in 0..=seed.len() {
            if let Some(prefix) = seed.get(..end) {
                values.push(prefix.to_owned());
            }
            // A byte-level truncation that lands inside a character cannot
            // be a `&str`, but it can be a `String` after a lossy decode,
            // which is exactly how such a value reaches the database.
            values.push(String::from_utf8_lossy(&seed.as_bytes()[..end]).into_owned());
        }
    }

    for value in &values {
        // Every field the export reads, one at a time, so a `None` on one
        // of them cannot hide a panic on another.
        let mut probe = todo("todo-fuzz", "边界");
        probe.due_date = Some(value.clone());
        probe.reminders = vec![Reminder { at: value.clone(), offset: 0 }];
        probe.starts_at = Some(value.clone());
        probe.ends_at = Some(value.clone());
        let mut rule = weekly(Vec::new());
        rule.until = Some(value.clone());
        probe.recurrence = Some(rule);

        let mut dated = todo("todo-fuzz-2", "边界");
        dated.due_date = Some("2026-07-23".to_owned());
        let mut dated_rule = weekly(Vec::new());
        dated_rule.until = Some(value.clone());
        dated.recurrence = Some(dated_rule);

        let calendar = build_calendar(&[probe, dated], EXPORTED_AT);
        assert!(calendar.content.ends_with(CRLF), "{value:?}");
    }
}

#[test]
fn an_end_date_on_a_timed_event_covers_the_whole_local_day() {
    // UTC−8, 20:00 local: the occurrences happen at 04:00Z the next day, so
    // an UNTIL of 20261231T235959Z would drop the last one.
    let mut evening = todo("todo-22", "夜跑");
    evening.starts_at = Some("2026-07-23T20:00:00-08:00".to_owned());
    let mut rule = weekly(Vec::new());
    rule.frequency = RecurrenceFrequency::Daily;
    rule.until = Some("2026-12-31".to_owned());
    evening.recurrence = Some(rule.clone());

    // 2026-12-31T23:59:59−08:00 == 2027-01-01T07:59:59Z, which is after the
    // last occurrence (2027-01-01T04:00:00Z) and before the next one.
    assert_eq!(
        rrule_of(evening),
        Some("RRULE:FREQ=DAILY;UNTIL=20270101T075959Z".to_owned())
    );

    // East of UTC the day ends earlier, and the value follows.
    let mut morning = todo("todo-23", "晨读");
    morning.starts_at = Some("2026-07-23T08:00:00+08:00".to_owned());
    morning.recurrence = Some(rule);

    assert_eq!(
        rrule_of(morning),
        Some("RRULE:FREQ=DAILY;UNTIL=20261231T155959Z".to_owned())
    );
}

#[test]
fn rules_rfc_5545_cannot_say_are_counted_for_the_caller_to_report() {
    let mut lunar = todo("todo-24", "农历生日");
    lunar.due_date = Some("2026-09-01".to_owned());
    let mut lunar_rule = weekly(Vec::new());
    lunar_rule.frequency = RecurrenceFrequency::Yearly;
    lunar_rule.calendar = RecurrenceCalendar::Lunar;
    lunar.recurrence = Some(lunar_rule);

    let mut every_other_workday = todo("todo-25", "隔个工作日");
    every_other_workday.due_date = Some("2026-07-23".to_owned());
    let mut workday_rule = weekly(Vec::new());
    workday_rule.frequency = RecurrenceFrequency::Workday;
    workday_rule.interval = 2;
    every_other_workday.recurrence = Some(workday_rule);

    let mut weekly_task = todo("todo-26", "周会");
    weekly_task.due_date = Some("2026-07-23".to_owned());
    weekly_task.recurrence = Some(weekly(vec![Weekday::Monday]));

    let mut plain = todo("todo-27", "交周报");
    plain.due_date = Some("2026-07-23".to_owned());

    let calendar = build_calendar(
        &[lunar, every_other_workday, weekly_task, plain],
        EXPORTED_AT,
    );

    assert_eq!(calendar.event_count, 4);
    // Only the two that lost their repeat rule count; a rule that mapped and
    // a task with no rule at all do not.
    assert_eq!(calendar.unrepeatable_recurrences, 2);
}

#[test]
fn a_task_with_no_date_cannot_be_counted_as_a_lost_recurrence() {
    // It never became an event, so there is nothing for the user to be told
    // about — counting it would overstate the warning.
    let mut undated_lunar = todo("todo-28", "农历生日");
    let mut lunar_rule = weekly(Vec::new());
    lunar_rule.calendar = RecurrenceCalendar::Lunar;
    undated_lunar.recurrence = Some(lunar_rule);

    let calendar = build_calendar(&[undated_lunar], EXPORTED_AT);

    assert_eq!(calendar.event_count, 0);
    assert_eq!(calendar.unrepeatable_recurrences, 0);
}

#[test]
fn an_offset_reads_in_both_shapes_and_refuses_the_rest() {
    assert_eq!(parse_offset("Z"), Some(0));
    assert_eq!(parse_offset("+08:00"), Some(8 * 3_600));
    assert_eq!(parse_offset("-0130"), Some(-(3_600 + 30 * 60)));
    assert_eq!(parse_offset("+8"), None);
    assert_eq!(parse_offset(""), Some(0));
    assert_eq!(parse_offset("08:00"), None);
}

#[test]
fn a_second_reminder_is_not_what_the_event_is_placed_by() {
    // The first reminder decides where an undated task lands.
    let mut reminded = todo("todo-29", "两次提醒");
    reminded.reminders = vec![
        Reminder { at: "2026-07-24T12:00:00Z".to_owned(), offset: 0 },
        Reminder { at: "2026-07-25T12:00:00Z".to_owned(), offset: 0 },
    ];
    let calendar = build_calendar(&[reminded], EXPORTED_AT);
    assert!(lines(&calendar.content).contains(&"DTSTART:20260724T120000Z".to_owned()));
    assert!(!calendar.content.contains("20260725T120000Z"));
}

#[test]
fn an_export_moment_far_from_the_epoch_is_still_written() {
    let far = 9_000_000_000_000_000_000;
    let calendar = build_calendar(&[], far);
    assert!(calendar.content.starts_with("BEGIN:VCALENDAR\r\n"));
    assert_eq!(calendar.event_count, 0);
    assert_eq!(export_file_name(far, 0), "todo-2851986485310421T160000Z.ics");
    assert_eq!(export_file_name(i64::MIN, 0), "todo--2922770226570127T082952Z.ics");
}
