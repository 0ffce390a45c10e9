use todo_domain::civil::CivilDate;
use todo_domain::lunar::{covers_year, day_in, LunarDate, LunarMonth, Sky, FIRST_YEAR, LAST_YEAR};

fn from_civil(date: CivilDate) -> Option<LunarDate> {
    Sky::new().from_civil(date)
}

fn month_of_year(year: i64, month: u32, leap: bool) -> Option<LunarMonth> {
    Sky::new().month_of_year(year, month, leap)
}

fn month_after(from: LunarDate, steps: i64) -> Option<LunarMonth> {
    Sky::new().month_after(from, steps)
}

fn sui(start_year: i64) -> Option<Vec<LunarMonth>> {
    Sky::new().sui(start_year)
}


fn civil(year: i64, month: u32, day: u32) -> CivilDate {
    CivilDate { year, month, day }
}

fn lunar(year: i64, month: u32, leap: bool, day: u32) -> LunarDate {
    LunarDate {
        year,
        month,
        leap,
        day,
    }
}

/// The civil date of the first day of the first month — new year's day on
/// this calendar, and the one date of it everybody can check.
fn new_year(year: i64) -> Option<CivilDate> {
    day_in(&month_of_year(year, 1, false)?, 1)
}

#[test]
fn new_years_day_falls_where_the_almanacs_say_it_does() {
    // Spread over the supported range, and including every year the holiday
    // table covers so that the two data sources check each other.
    for (year, month, day) in [
        (1929, 2, 10),
        (1930, 1, 30),
        (1949, 1, 29),
        (1970, 2, 6),
        (1980, 2, 16),
        (1990, 1, 27),
        (2000, 2, 5),
        (2010, 2, 14),
        (2019, 2, 5),
        (2020, 1, 25),
        (2021, 2, 12),
        (2022, 2, 1),
        (2023, 1, 22),
        (2024, 2, 10),
        (2025, 1, 29),
        (2026, 2, 17),
        (2027, 2, 6),
        (2028, 1, 26),
        (2029, 2, 13),
        (2030, 2, 3),
        (2033, 1, 31),
        (2035, 2, 8),
    ] {
        assert_eq!(new_year(year), Some(civil(year, month, day)), "{year}");
    }

    // And across the whole range, the invariant that would catch a month
    // numbered one out anywhere in it: the first month begins between
    // 21 January and 21 February, never outside.
    for year in FIRST_YEAR..=LAST_YEAR {
        let day = new_year(year).expect("a year inside the supported range");
        assert_eq!(day.year, year, "{year}");
        let within = (day.month == 1 && day.day >= 21) || (day.month == 2 && day.day <= 21);
        assert!(within, "{year} begins on {day:?}");
    }
}

#[test]
fn a_leap_month_is_found_where_it_belongs() {
    for (year, month) in [
        (2001, 4),
        (2004, 2),
        (2006, 7),
        (2009, 5),
        (2012, 4),
        (2014, 9),
        (2017, 6),
        (2020, 4),
        (2023, 2),
        (2025, 6),
        (2028, 5),
        (2031, 3),
        (2033, 11),
    ] {
        assert!(
            month_of_year(year, month, true).is_some(),
            "{year} should hold a leap month {month}"
        );
    }

    for year in [2021, 2022, 2024, 2026, 2027, 2029, 2030, 2032] {
        assert!(
            (1..=12).all(|month| month_of_year(year, month, true).is_none()),
            "{year} should hold no leap month"
        );
    }
}

#[test]
fn the_days_the_holiday_notices_name_in_lunar_terms_agree() {
    // The published arrangements in `crate::holidays` state some of their
    // days in lunar terms, which makes them an independent check on this
    // module: the dragon boat festival is the fifth of the fifth month and
    // the mid-autumn festival the fifteenth of the eighth.
    for (year, civil_month, civil_day) in [(2024, 6, 10), (2025, 5, 31), (2026, 6, 19)] {
        assert_eq!(
            from_civil(civil(year, civil_month, civil_day)),
            Some(lunar(year, 5, false, 5)),
            "dragon boat {year}"
        );
    }

    for (year, civil_month, civil_day) in [(2024, 9, 17), (2025, 10, 6), (2026, 9, 25)] {
        assert_eq!(
            from_civil(civil(year, civil_month, civil_day)),
            Some(lunar(year, 8, false, 15)),
            "mid-autumn {year}"
        );
    }

    // "2月15日（农历腊月二十八）至23日（农历正月初七）", from the 2026 notice.
    assert_eq!(
        from_civil(civil(2026, 2, 15)),
        Some(lunar(2025, 12, false, 28))
    );
    assert_eq!(
        from_civil(civil(2026, 2, 23)),
        Some(lunar(2026, 1, false, 7))
    );
    // "1月28日（农历除夕）", from the 2025 notice: the last day of a twelfth
    // month that happens to be 29 days long.
    assert_eq!(
        from_civil(civil(2025, 1, 28)),
        Some(lunar(2024, 12, false, 29))
    );
}

#[test]
fn a_lunar_date_and_a_civil_one_say_the_same_day_in_both_directions() {
    for (year, month, day) in [(2026, 2, 17), (2025, 8, 29), (2020, 5, 23), (2033, 12, 31)] {
        let date = civil(year, month, day);
        let lunar = from_civil(date).expect("a date inside the supported years");
        let month = month_of_year(lunar.year, lunar.month, lunar.leap).expect("its own month");
        assert_eq!(day_in(&month, lunar.day), Some(date));
    }
}

#[test]
fn every_supported_year_is_a_calendar_that_holds_together() {
    // Structure is what a wrong new moon shows up in: months are 29 or 30
    // days, they run end to end without a gap or an overlap, a sui holds 12
    // or 13 of them with at most one leap, and the numbering runs 11, 12, 1
    // … 10 whatever the leap does to it.
    let mut previous_end: Option<i64> = None;

    for start_year in FIRST_YEAR - 1..=LAST_YEAR {
        let months = sui(start_year).expect("a sui inside the supported years");
        assert!(
            months.len() == 12 || months.len() == 13,
            "the sui of {start_year} holds {} months",
            months.len()
        );
        assert!(
            months.iter().filter(|month| month.leap).count() <= 1,
            "the sui of {start_year} holds more than one leap month"
        );

        let numbers: Vec<u32> = months
            .iter()
            .filter(|month| !month.leap)
            .map(|month| month.month)
            .collect();
        assert_eq!(numbers, [11, 12, 1, 2, 3, 4, 5, 6, 7, 8, 9, 10]);

        for month in &months {
            assert!(
                month.length == 29 || month.length == 30,
                "{}-{} is {} days",
                month.year,
                month.month,
                month.length
            );
            if let Some(end) = previous_end {
                assert_eq!(
                    month.start, end,
                    "{}-{} does not follow on",
                    month.year, month.month
                );
            }
            previous_end = Some(month.start + i64::from(month.length));
        }
    }
}

#[test]
fn the_range_starts_where_china_started_keeping_standard_time() {
    // 1929 is the first year the zone this module computes in is the zone
    // the calendar was reckoned in. Its first day is 10 February, and the
    // months of that lunar year are decided by a December solstice that
    // falls ten hours from midnight — far enough that the fourteen minutes
    // between the two conventions cannot move which month holds it.
    assert_eq!(new_year(FIRST_YEAR), Some(civil(1929, 2, 10)));
    assert!(new_year(FIRST_YEAR - 1).is_none());

    // 1916 is the year that showed the two conventions apart: its new moon
    // is at 23:51 in Beijing local mean time on 3 February and at 00:05 on
    // the 4th in the zone, so this module would have answered the 4th. It is
    // refused now rather than answered wrongly.
    assert!(from_civil(civil(1916, 2, 3)).is_none());
    assert!(from_civil(civil(1916, 2, 4)).is_none());

    // The first weeks of 1929 still belong to the twelfth month of 1928 and
    // are refused with it; the year answers from its first day on.
    assert!(from_civil(civil(1929, 1, 15)).is_none());
    assert_eq!(
        from_civil(civil(1929, 2, 10)),
        Some(lunar(1929, 1, false, 1))
    );
}

#[test]
fn a_year_outside_the_supported_range_is_refused_rather_than_guessed() {
    assert!(new_year(FIRST_YEAR).is_some());
    assert!(new_year(LAST_YEAR).is_some());
    assert!(new_year(FIRST_YEAR - 1).is_none());
    assert!(new_year(LAST_YEAR + 1).is_none());
    assert!(!covers_year(LAST_YEAR + 1));

    // The days at the very edges: the first civil days of 1929 still belong
    // to the lunar year 1928 and are refused with it.
    assert!(from_civil(civil(FIRST_YEAR, 1, 1)).is_none());
    assert!(from_civil(civil(LAST_YEAR + 1, 6, 1)).is_none());
    assert!(from_civil(civil(FIRST_YEAR, 12, 31)).is_some());
}

#[test]
fn counting_months_forward_walks_through_the_leap_months() {
    // 2023 holds a leap second month, so the twelve months after its first
    // end in the twelfth, not in the first of 2024.
    let after_twelve = month_after(lunar(2023, 1, false, 1), 12).expect("inside the range");
    assert_eq!(
        (after_twelve.year, after_twelve.month, after_twelve.leap),
        (2023, 12, false)
    );

    let after_one = month_after(lunar(2023, 2, false, 1), 1).expect("inside the range");
    assert_eq!(
        (after_one.year, after_one.month, after_one.leap),
        (2023, 2, true)
    );

    // Across a sui boundary, which is where the months of one year are
    // handed over to the next.
    let across = month_after(lunar(2025, 11, false, 1), 3).expect("inside the range");
    assert_eq!((across.year, across.month, across.leap), (2026, 2, false));

    assert!(month_after(lunar(LAST_YEAR, 12, false, 1), 1).is_none());
}

#[test]
fn a_day_the_month_is_too_short_for_has_no_civil_date() {
    let short = month_of_year(2024, 12, false).expect("inside the range");
    assert_eq!(short.length, 29);
    assert_eq!(day_in(&short, 29), Some(civil(2025, 1, 28)));
    assert_eq!(day_in(&short, 30), None);
    assert_eq!(day_in(&short, 0), None);
}

#[test]
fn the_months_that_begin_at_the_edge_of_midnight_begin_on_the_almanacs_day() {
    assert_eq!(
        from_civil(civil(2057, 9, 28)),
        Some(lunar(2057, 9, false, 1))
    );
    assert_eq!(
        from_civil(civil(2097, 8, 7)),
        Some(lunar(2097, 7, false, 1))
    );
}
