use todo_domain::civil::{weekday_index, CivilDate};
use todo_domain::holidays::{coverage, working_day};

fn date(year: i64, month: u32, day: u32) -> CivilDate {
    CivilDate { year, month, day }
}

#[test]
fn the_table_says_how_far_it_reaches() {
    assert_eq!(coverage(), Some((2024, 2026)));
    assert!(working_day(date(2026, 7, 23)).is_some());
    assert_eq!(working_day(date(2027, 7, 23)), None, "not published yet");
    assert_eq!(working_day(date(2023, 7, 23)), None, "before the table");
}

#[test]
fn a_year_is_written_the_way_its_notice_reads() {
    // Every run of the 2026 notice, at both of its ends, and one day inside
    // an ordinary week to show the notice only moves what it names.
    for (month, day) in [(1, 1), (1, 3), (2, 15), (2, 23), (4, 4), (4, 6)] {
        assert!(
            !working_day(date(2026, month, day)).expect("a covered year"),
            "2026-{month}-{day} is a day off"
        );
    }
    for (month, day) in [(5, 1), (5, 5), (6, 19), (6, 21), (9, 25), (10, 1), (10, 7)] {
        assert!(
            !working_day(date(2026, month, day)).expect("a covered year"),
            "2026-{month}-{day} is a day off"
        );
    }

    assert!(working_day(date(2026, 1, 5)).expect("a covered year"));
    assert!(working_day(date(2026, 5, 6)).expect("a covered year"));
    assert!(working_day(date(2026, 10, 8)).expect("a covered year"));
}

#[test]
fn a_weekend_day_the_notice_names_is_a_working_day() {
    // Every make-up day of 2026, each of which is a Saturday or a Sunday.
    for (month, day) in [(1, 4), (2, 14), (2, 28), (5, 9), (9, 20), (10, 10)] {
        let date = date(2026, month, day);
        assert!(weekday_index(date) >= 5, "2026-{month}-{day} is a weekend");
        assert!(
            working_day(date).expect("a covered year"),
            "2026-{month}-{day} is worked"
        );
    }

    // And of the two years before it, where the pattern is the same.
    for (year, month, day) in [(2024, 2, 4), (2024, 10, 12), (2025, 1, 26), (2025, 10, 11)] {
        assert!(
            working_day(date(year, month, day)).expect("a covered year"),
            "{year}-{month}-{day} is worked"
        );
    }
}

#[test]
fn a_weekend_the_notice_says_nothing_about_stays_a_weekend() {
    // 2026-07-25 is an ordinary Saturday in a covered year: the arrangement
    // is read, finds nothing, and the week decides.
    assert!(!working_day(date(2026, 7, 25)).expect("a covered year"));
    assert!(!working_day(date(2026, 7, 26)).expect("a covered year"));
    assert!(working_day(date(2026, 7, 24)).expect("a covered year"));
}

#[test]
fn a_run_of_days_off_may_cross_the_end_of_a_month() {
    // 春节 2025: 1月28日至2月4日, eight days over two months.
    for (month, day) in [(1, 28), (1, 31), (2, 1), (2, 4)] {
        assert!(
            !working_day(date(2025, month, day)).expect("a covered year"),
            "2025-{month}-{day} is a day off"
        );
    }
    assert!(working_day(date(2025, 1, 27)).expect("a covered year"));
    assert!(working_day(date(2025, 2, 5)).expect("a covered year"));
}

#[test]
fn a_weekday_in_a_covered_year_the_notice_leaves_alone_is_worked() {
    // 2024-07-17 is an ordinary Wednesday.
    assert_eq!(working_day(date(2024, 7, 17)), Some(true));
    assert_eq!(working_day(date(2024, 7, 20)), Some(false));
}
