//! Which days the published holiday arrangement calls days off, and which
//! weekend days it calls working days.
//!
//! A working day in mainland China is not Monday to Friday. The State Council
//! publishes one notice a year that names the runs of days off and, to pay for
//! the long ones, names weekend days everybody works instead. The tables below
//! are that data, one year each, written the way the notice reads it: each
//! holiday as the day it starts on and how many days it lasts, each make-up
//! working day as itself. Adding a year is adding one arm to each table.
//!
//! Beyond the years covered there is no arrangement to read and
//! [`working_day`] answers `None`; [`coverage`] says how far the tables reach.

use vstd::prelude::*;

use crate::civil::{
    days_from_civil, in_range, is_valid_date, spec_days_from_civil, spec_weekday_index,
    weekday_index, CivilDate, YEAR_LIMIT,
};

verus! {

/// The first year an arrangement is published for.
pub const FIRST_COVERED_YEAR: i64 = 2024;

/// The last year an arrangement is published for.
pub const LAST_COVERED_YEAR: i64 = 2026;

/// Each run of days off in a year: the month and day it starts on, and how
/// many days it lasts. A run may cross into the next month.
///
/// Sources, one notice per year: 2024 — 国办发明电〔2023〕7号; 2025 —
/// 国办发明电〔2024〕12号; 2026 — 国办发明电〔2025〕7号.
pub open spec fn holiday_runs(year: int) -> Seq<(u32, u32, u32)> {
    if year == 2024 {
        seq![(1, 1, 1), (2, 10, 8), (4, 4, 3), (5, 1, 5), (6, 10, 1), (9, 15, 3), (10, 1, 7)]
    } else if year == 2025 {
        seq![(1, 1, 1), (1, 28, 8), (4, 4, 3), (5, 1, 5), (5, 31, 3), (10, 1, 8)]
    } else if year == 2026 {
        seq![(1, 1, 3), (2, 15, 9), (4, 4, 3), (5, 1, 5), (6, 19, 3), (9, 25, 3), (10, 1, 7)]
    } else {
        seq![]
    }
}

/// Each weekend day a year's notice turns into a working day.
pub open spec fn makeup_days(year: int) -> Seq<(u32, u32)> {
    if year == 2024 {
        seq![(2, 4), (2, 18), (4, 7), (4, 28), (5, 11), (9, 14), (9, 29), (10, 12)]
    } else if year == 2025 {
        seq![(1, 26), (2, 8), (4, 27), (9, 28), (10, 11)]
    } else if year == 2026 {
        seq![(1, 4), (2, 14), (2, 28), (5, 9), (9, 20), (10, 10)]
    } else {
        seq![]
    }
}

pub open spec fn is_covered_year(year: int) -> bool {
    FIRST_COVERED_YEAR <= year <= LAST_COVERED_YEAR
}

/// Whether a run of days off holds a date, counted in day numbers so that a
/// run crossing the end of a month needs no special case.
#[verifier::opaque]
pub open spec fn run_covers(date: CivilDate, year: int, run: (u32, u32, u32)) -> bool {
    let start = spec_days_from_civil(CivilDate { year: year as i64, month: run.0, day: run.1 });
    let asked = spec_days_from_civil(date);
    start <= asked < start + run.2
}

/// Whether a date is a working day, or `None` when no arrangement covers its
/// year. A make-up day is read before a holiday, so it wins if a notice ever
/// named a day as both.
pub open spec fn spec_working_day(date: CivilDate) -> Option<bool> {
    let year = date.year as int;
    if !is_covered_year(year) {
        None
    } else if exists|i: int|
        0 <= i < makeup_days(year).len() && #[trigger] makeup_days(year)[i] == (date.month, date.day) {
        Some(true)
    } else if exists|i: int|
        0 <= i < holiday_runs(year).len() && run_covers(date, year, #[trigger] holiday_runs(year)[i]) {
        Some(false)
    } else {
        Some(spec_weekday_index(date) < 5)
    }
}

/// The first and last year the tables cover.
pub fn coverage() -> (years: Option<(i64, i64)>)
    ensures
        years == Some((FIRST_COVERED_YEAR, LAST_COVERED_YEAR)),
{
    Some((FIRST_COVERED_YEAR, LAST_COVERED_YEAR))
}

fn holidays_of(year: i64) -> (runs: Vec<(u32, u32, u32)>)
    ensures
        runs@ == holiday_runs(year as int),
{
    if year == 2024 {
        vec![(1, 1, 1), (2, 10, 8), (4, 4, 3), (5, 1, 5), (6, 10, 1), (9, 15, 3), (10, 1, 7)]
    } else if year == 2025 {
        vec![(1, 1, 1), (1, 28, 8), (4, 4, 3), (5, 1, 5), (5, 31, 3), (10, 1, 8)]
    } else if year == 2026 {
        vec![(1, 1, 3), (2, 15, 9), (4, 4, 3), (5, 1, 5), (6, 19, 3), (9, 25, 3), (10, 1, 7)]
    } else {
        Vec::new()
    }
}

fn makeup_days_of(year: i64) -> (days: Vec<(u32, u32)>)
    ensures
        days@ == makeup_days(year as int),
{
    if year == 2024 {
        vec![(2, 4), (2, 18), (4, 7), (4, 28), (5, 11), (9, 14), (9, 29), (10, 12)]
    } else if year == 2025 {
        vec![(1, 26), (2, 8), (4, 27), (9, 28), (10, 11)]
    } else if year == 2026 {
        vec![(1, 4), (2, 14), (2, 28), (5, 9), (9, 20), (10, 10)]
    } else {
        Vec::new()
    }
}

/// Whether a date is a working day, or `None` when no arrangement covers its
/// year.
pub fn working_day(date: CivilDate) -> (answer: Option<bool>)
    requires
        in_range(date),
    ensures
        answer == spec_working_day(date),
{
    if date.year < FIRST_COVERED_YEAR || date.year > LAST_COVERED_YEAR {
        return None;
    }
    let workdays = makeup_days_of(date.year);
    let mut i: usize = 0;
    while i < workdays.len()
        invariant
            workdays@ == makeup_days(date.year as int),
            0 <= i <= workdays.len(),
            forall|k: int| 0 <= k < i ==> workdays@[k] != (date.month, date.day),
        decreases workdays.len() - i,
    {
        let (month, day) = workdays[i];
        if month == date.month && day == date.day {
            return Some(true);
        }
        i = i + 1;
    }
    let runs = holidays_of(date.year);
    proof {
        lemma_runs_are_dates(date.year as int);
    }
    let mut j: usize = 0;
    while j < runs.len()
        invariant
            runs@ == holiday_runs(date.year as int),
            is_covered_year(date.year as int),
            in_range(date),
            0 <= j <= runs.len(),
            forall|k: int| 0 <= k < j ==> !run_covers(date, date.year as int, #[trigger] runs@[k]),
            forall|k: int| 0 <= k < runs.len() ==> (#[trigger] runs@[k]).0 <= 12 && runs@[k].1 <= 31,
            forall|k: int|
                0 <= k < makeup_days(date.year as int).len() ==> #[trigger] makeup_days(
                    date.year as int,
                )[k] != (date.month, date.day),
        decreases runs.len() - j,
    {
        if covers(date, date.year, runs[j]) {
            assert(run_covers(date, date.year as int, holiday_runs(date.year as int)[j as int]));
            return Some(false);
        }
        j = j + 1;
    }
    Some(weekday_index(date) < 5)
}

proof fn lemma_runs_are_dates(year: int)
    ensures
        forall|k: int|
            0 <= k < holiday_runs(year).len() ==> (#[trigger] holiday_runs(year)[k]).0 <= 12
                && holiday_runs(year)[k].1 <= 31,
{
}

/// Whether a run of days off holds a date.
pub fn covers(date: CivilDate, year: i64, run: (u32, u32, u32)) -> (r: bool)
    requires
        in_range(date),
        -YEAR_LIMIT <= year <= YEAR_LIMIT,
        run.0 <= 1000,
        run.1 <= 1000,
    ensures
        r == run_covers(date, year as int, run),
{
    reveal(run_covers);
    let (month, day, length) = run;
    let start = days_from_civil(CivilDate { year, month, day });
    let asked = days_from_civil(date);
    asked >= start && asked < start + length as i64
}

} // verus!
