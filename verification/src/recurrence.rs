//! What a repeat rule means, and when it happens next.
//!
//! Every question is asked relative to two dates the caller supplies, so the
//! same rule gives the same answer on every device. The engine speaks civil
//! dates, the way the contract stores them (`YYYY-MM-DD`); the time of day
//! belongs to the task, so no daylight-saving change can move an occurrence.
//!
//! A lunar rule counts its months and years on the calendar in
//! [`crate::lunar`]; a working day is read from [`crate::holidays`], falling
//! back to Monday to Friday for the years no published arrangement covers.
//!
//! The reading of every field agrees with the `RRULE` mapping of the calendar
//! export: the anchor is always the first occurrence, weeks begin on Monday, a
//! position the calendar does not have is skipped rather than moved, and an
//! unreadable end date is no end date.

use vstd::prelude::*;

use crate::civil::{
    civil_from_days, day_in_range, days_from_civil, is_valid_date, lemma_civil_from_days_valid,
    lemma_days_of_civil, lemma_order_is_chronological, spec_civil_from_days,
    add_months, days_in_month, month_length, spec_add_months, DAY_LIMIT, spec_days_from_civil, spec_weekday_index, weekday_index,
    CivilDate, YEAR_LIMIT, parse_date, spec_parse_date, format_iso_date, spec_format_iso_date,
};
use vstd::string::StringSliceAdditionalSpecFns;
use crate::contracts::{
    ContractValidationError, RecurrenceCalendar, RecurrenceFrequency, RecurrenceRule, Weekday,
};
use crate::lunar::{
    covers, covers_year, day_in, spec_from_civil, month_in_range, spec_day_in, spec_month_after,
    spec_month_of_year, LunarDate, LunarMonth, Sky, LAST_YEAR,
};
use crate::holidays::{
    coverage, is_covered_year, spec_working_day, working_day, FIRST_COVERED_YEAR, LAST_COVERED_YEAR,
};

verus! {

/// The day number of 2027-01-01, the first day past the years the holiday
/// arrangement covers.
pub const FIRST_UNCOVERED_DAY: i64 = 20_819;

/// The furthest day number, either side of 1970-01-01, a repeat walk steps
/// through; a walk that would go further ends there.
pub const WALK_DAY_LIMIT: i64 = 100_000_000_000;

/// Whether a date is a working day: the published arrangement where one
/// covers the year, Monday to Friday beyond it.
#[verifier::opaque]
pub open spec fn spec_is_working_day(date: CivilDate) -> bool {
    match spec_working_day(date) {
        Some(working) => working,
        None => spec_weekday_index(date) < 5,
    }
}

/// Whether the day with number `days` is a working day.
#[verifier::opaque]
pub open spec fn working_on(days: int) -> bool {
    spec_is_working_day(spec_civil_from_days(days))
}

proof fn lemma_working_on(days: int)
    ensures
        working_on(days) == spec_is_working_day(spec_civil_from_days(days)),
{
    reveal(working_on);
}

proof fn lemma_is_working_day(date: CivilDate)
    ensures
        spec_is_working_day(date) == match spec_working_day(date) {
            Some(working) => working,
            None => spec_weekday_index(date) < 5,
        },
{
    reveal(spec_is_working_day);
}

/// Whether the working day `k` days after day `days` is the first one after it.
pub open spec fn is_next_working_offset(days: int, k: int) -> bool {
    &&& k >= 1
    &&& working_on(days + k)
    &&& forall|j: int| 1 <= j < k ==> !#[trigger] working_on(days + j)
}

/// The first working day after `date`.
pub open spec fn spec_next_working_day(date: CivilDate) -> CivilDate {
    let days = spec_days_from_civil(date);
    spec_civil_from_days(days + choose|k: int| is_next_working_offset(days, k))
}

/// The `count`-th working day after `date`; `date` itself at zero.
pub open spec fn spec_working_day_after(date: CivilDate, count: nat) -> CivilDate
    decreases count,
{
    if count == 0 {
        date
    } else {
        spec_next_working_day(spec_working_day_after(date, (count - 1) as nat))
    }
}

/// Whether a date is a working day.
///
/// The published arrangement decides it for the years [`crate::holidays`]
/// covers. Beyond those years the answer falls back to Monday to Friday, and
/// an answer that had to fall back says so in
/// [`Occurrence::assumed_monday_to_friday`].
pub fn is_working_day(date: CivilDate) -> (working: bool)
    requires
        crate::civil::in_range(date),
    ensures
        working == spec_is_working_day(date),
{
    proof {
        lemma_is_working_day(date);
    }
    match working_day(date) {
        Some(working) => working,
        None => weekday_index(date) < 5,
    }
}

/// How many more days a search for a working day may take from day `days`:
/// before the uncovered years, the distance to them; after, the rest of a
/// weekend.
spec fn working_search_left(days: int) -> int {
    if days < FIRST_UNCOVERED_DAY {
        FIRST_UNCOVERED_DAY + 7 - days
    } else if (days + 3) % 7 == 5 {
        2
    } else if (days + 3) % 7 == 6 {
        1
    } else {
        0
    }
}

/// Past the covered years a day off is a weekend day.
proof fn lemma_uncovered_days_off_are_weekends(days: int)
    requires
        FIRST_UNCOVERED_DAY <= days <= WALK_DAY_LIMIT + 10,
        !working_on(days),
    ensures
        (days + 3) % 7 == 5 || (days + 3) % 7 == 6,
{
    let date = spec_civil_from_days(days);
    lemma_working_on(days);
    lemma_is_working_day(date);
    lemma_civil_from_days_valid(days);
    lemma_days_of_civil(days);
    if is_covered_year(date.year as int) {
        let boundary = CivilDate { year: 2027, month: 1, day: 1 };
        lemma_order_is_chronological(date, boundary);
        assert(spec_days_from_civil(boundary) == FIRST_UNCOVERED_DAY);
    }
}

/// Whether the day with number `day` is a working day.
fn is_working_day_number(day: i64) -> (working: bool)
    requires
        -WALK_DAY_LIMIT - 10 <= day <= WALK_DAY_LIMIT + 10,
    ensures
        working == working_on(day as int),
{
    proof {
        lemma_civil_from_days_valid(day as int);
        lemma_working_on(day as int);
    }
    is_working_day(civil_from_days(day))
}

/// Each day off brings the search for a working day one step closer.
proof fn lemma_search_progress(day: int)
    requires
        -WALK_DAY_LIMIT - 10 <= day <= WALK_DAY_LIMIT + 10,
        !working_on(day),
    ensures
        0 <= working_search_left(day + 1) < working_search_left(day),
{
    if day >= FIRST_UNCOVERED_DAY {
        lemma_uncovered_days_off_are_weekends(day);
    }
}

/// Whether the working day found by a search starting after `start` and now
/// standing on `day` is the first one.
proof fn lemma_first_found(start: int, day: int)
    requires
        start < day,
        working_on(day),
        forall|j: int| 1 <= j < day - start ==> !#[trigger] working_on(start + j),
    ensures
        start + (choose|k: int| is_next_working_offset(start, k)) == day,
{
    let k = day - start;
    assert(working_on(start + k));
    assert(is_next_working_offset(start, k));
    let chosen = choose|k: int| is_next_working_offset(start, k);
    if chosen < k {
        assert(!working_on(start + chosen));
    } else if chosen > k {
        assert(!working_on(start + k));
    }
}

/// The first working day after `date`.
pub fn next_working_day(date: CivilDate) -> (next: CivilDate)
    requires
        is_valid_date(date),
        -WALK_DAY_LIMIT <= spec_days_from_civil(date) <= WALK_DAY_LIMIT,
        crate::civil::in_range(date),
    ensures
        next == spec_next_working_day(date),
        spec_days_from_civil(date) < spec_days_from_civil(next) <= (if spec_days_from_civil(date)
            < FIRST_UNCOVERED_DAY {
            FIRST_UNCOVERED_DAY + 7
        } else {
            spec_days_from_civil(date) + 3
        }),
        is_valid_date(next),
        crate::civil::in_range(next),
{
    let start = days_from_civil(date);
    let mut day = start + 1;
    while !is_working_day_number(day)
        invariant
            start == spec_days_from_civil(date),
            -WALK_DAY_LIMIT <= start <= WALK_DAY_LIMIT,
            start < day,
            day + working_search_left(day as int) <= (if start < FIRST_UNCOVERED_DAY {
                FIRST_UNCOVERED_DAY + 7
            } else {
                start + 3
            }),
            forall|j: int| 1 <= j < day - start ==> !#[trigger] working_on(start + j),
        decreases working_search_left(day as int),
    {
        proof {
            lemma_search_progress(day as int);
        }
        day = day + 1;
    }
    proof {
        lemma_first_found(start as int, day as int);
        lemma_days_of_civil(day as int);
        lemma_civil_from_days_valid(day as int);
    }
    civil_from_days(day)
}


/// Counting working days composes: `a` working days on and then `b` more lands
/// where `a + b` working days on does, since each is a plain forward walk.
pub proof fn lemma_working_days_compose(date: CivilDate, a: nat, b: nat)
    ensures
        spec_working_day_after(spec_working_day_after(date, a), b) == spec_working_day_after(
            date,
            a + b,
        ),
    decreases b,
{
    if b > 0 {
        lemma_working_days_compose(date, a, (b - 1) as nat);
    }
}

/// The `count`-th working day after `date`; `date` itself at zero.
pub fn working_day_after(date: CivilDate, count: u32) -> (moved: CivilDate)
    requires
        is_valid_date(date),
        crate::civil::in_range(date),
        -WALK_DAY_LIMIT <= spec_days_from_civil(date),
        spec_days_from_civil(date) + 3 * count <= WALK_DAY_LIMIT,
    ensures
        moved == spec_working_day_after(date, count as nat),
        is_valid_date(moved),
        crate::civil::in_range(moved),
        spec_days_from_civil(date) <= spec_days_from_civil(moved),
        spec_days_from_civil(moved) <= (if spec_days_from_civil(date) < FIRST_UNCOVERED_DAY {
            FIRST_UNCOVERED_DAY + 7
        } else {
            spec_days_from_civil(date)
        }) + 3 * count,
{
    let ghost start = spec_days_from_civil(date);
    let ghost floor = if start < FIRST_UNCOVERED_DAY {
        FIRST_UNCOVERED_DAY + 7
    } else {
        start
    };
    let mut moved = date;
    let mut i: u32 = 0;
    while i < count
        invariant
            0 <= i <= count,
            start == spec_days_from_civil(date),
            floor == (if start < FIRST_UNCOVERED_DAY {
                FIRST_UNCOVERED_DAY + 7
            } else {
                start
            }),
            -WALK_DAY_LIMIT <= start,
            start + 3 * count <= WALK_DAY_LIMIT,
            moved == spec_working_day_after(date, i as nat),
            is_valid_date(moved),
            crate::civil::in_range(moved),
            start <= spec_days_from_civil(moved) <= floor + 3 * i,
        decreases count - i,
    {
        moved = next_working_day(moved);
        i = i + 1;
    }
    moved
}

/// A day of the week, Monday 0.
pub open spec fn weekday_number(day: Weekday) -> int {
    match day {
        Weekday::Monday => 0,
        Weekday::Tuesday => 1,
        Weekday::Wednesday => 2,
        Weekday::Thursday => 3,
        Weekday::Friday => 4,
        Weekday::Saturday => 5,
        Weekday::Sunday => 6,
    }
}

/// The day of the week numbered `n`, Monday 0.
pub open spec fn weekday_named(n: int) -> Weekday {
    if n == 0 {
        Weekday::Monday
    } else if n == 1 {
        Weekday::Tuesday
    } else if n == 2 {
        Weekday::Wednesday
    } else if n == 3 {
        Weekday::Thursday
    } else if n == 4 {
        Weekday::Friday
    } else if n == 5 {
        Weekday::Saturday
    } else {
        Weekday::Sunday
    }
}

fn weekday_of_number(n: i64) -> (day: Weekday)
    requires
        0 <= n < 7,
    ensures
        day == weekday_named(n as int),
{
    if n == 0 {
        Weekday::Monday
    } else if n == 1 {
        Weekday::Tuesday
    } else if n == 2 {
        Weekday::Wednesday
    } else if n == 3 {
        Weekday::Thursday
    } else if n == 4 {
        Weekday::Friday
    } else if n == 5 {
        Weekday::Saturday
    } else {
        Weekday::Sunday
    }
}

/// The days of the week below `upto` that `weekdays` names, as Monday-based
/// numbers in week order.
pub open spec fn named_days(weekdays: Seq<Weekday>, upto: int) -> Seq<i64>
    decreases upto,
{
    if upto <= 0 {
        seq![]
    } else {
        named_days(weekdays, upto - 1) + if weekdays.contains(weekday_named(upto - 1)) {
            seq![(upto - 1) as i64]
        } else {
            seq![]
        }
    }
}

/// The weekdays a weekly rule lands on, as Monday-based numbers in week
/// order. An empty list means the same weekday as the anchor.
pub open spec fn spec_weekly_days(rule: RecurrenceRule, anchor: CivilDate) -> Seq<i64> {
    if rule.frequency != RecurrenceFrequency::Weekly || rule.weekdays@.len() == 0 {
        seq![spec_weekday_index(anchor) as i64]
    } else {
        named_days(rule.weekdays@, 7)
    }
}

proof fn lemma_named_days_bounds(weekdays: Seq<Weekday>, upto: int)
    requires
        0 <= upto <= 7,
    ensures
        forall|i: int|
            0 <= i < named_days(weekdays, upto).len() ==> 0 <= #[trigger] named_days(weekdays, upto)[i]
                < upto,
        named_days(weekdays, upto).len() <= upto,
    decreases upto,
{
    if upto > 0 {
        lemma_named_days_bounds(weekdays, upto - 1);
    }
}

proof fn lemma_named_days_hold(weekdays: Seq<Weekday>, upto: int, day: Weekday)
    requires
        0 <= upto <= 7,
        weekdays.contains(day),
        weekday_number(day) < upto,
    ensures
        named_days(weekdays, upto).len() > 0,
    decreases upto,
{
    if weekday_number(day) < upto - 1 {
        lemma_named_days_hold(weekdays, upto - 1, day);
    } else {
        assert(weekday_named(upto - 1) == day);
    }
}

/// Whether `days` names `day`.
fn names_weekday(days: &Vec<Weekday>, day: Weekday) -> (found: bool)
    ensures
        found == days@.contains(day),
{
    let mut i: usize = 0;
    while i < days.len()
        invariant
            0 <= i <= days@.len(),
            forall|k: int| 0 <= k < i ==> days@[k] != day,
        decreases days@.len() - i,
    {
        if days[i] == day {
            return true;
        }
        i = i + 1;
    }
    false
}

/// The weekdays a weekly rule lands on, as Monday-based numbers in week order.
pub fn weekly_days(rule: &RecurrenceRule, anchor: CivilDate) -> (days: Vec<i64>)
    requires
        crate::civil::in_range(anchor),
    ensures
        days@ == spec_weekly_days(*rule, anchor),
        days@.len() > 0,
        forall|i: int| 0 <= i < days@.len() ==> 0 <= #[trigger] days@[i] < 7,
{
    if rule.frequency != RecurrenceFrequency::Weekly || rule.weekdays.len() == 0 {
        let mut days: Vec<i64> = Vec::new();
        days.push(weekday_index(anchor));
        return days;
    }
    let mut days: Vec<i64> = Vec::new();
    let mut n: i64 = 0;
    while n < 7
        invariant
            0 <= n <= 7,
            days@ == named_days(rule.weekdays@, n as int),
        decreases 7 - n,
    {
        if names_weekday(&rule.weekdays, weekday_of_number(n)) {
            days.push(n);
        }
        proof {
            assert(days@ =~= named_days(rule.weekdays@, n + 1));
        }
        n = n + 1;
    }
    proof {
        lemma_named_days_bounds(rule.weekdays@, 7);
        let first = rule.weekdays@[0];
        assert(rule.weekdays@.contains(first));
        lemma_named_days_hold(rule.weekdays@, 7, first);
    }
    days
}


/// How many positions in a row may name a day the calendar does not have, or
/// fall at or before the occurrence in hand, before the search gives up.
pub const MAX_MISSING_POSITIONS: u32 = 400;

/// How many days a daily or weekly rule may count from its anchor.
pub const DAY_STEP_LIMIT: i64 = 90_000_000_000;

/// How many months a monthly rule may count from its anchor.
pub const MONTH_STEP_LIMIT: i64 = 1_000_000_000;

/// How many years a yearly rule may count from its anchor.
pub const YEAR_STEP_LIMIT: i64 = 10_000_000;

/// How many positions one walk may ask for.
pub const POSITION_LIMIT: u64 = 1_000_000_000_000;

/// Why a repeat rule could not be answered.
#[derive(Clone, Copy, Debug, PartialEq, Eq, Structural)]
pub enum RecurrenceError {
    /// A date handed in was not `YYYY-MM-DD`, or named a day that does not
    /// exist.
    UnreadableDate,
    /// The rule itself is not a usable combination; the contract says which.
    UnusableRule(ContractValidationError),
    /// A lunar rule reaching a year [`crate::lunar`] does not answer for.
    LunarOutOfRange,
}

/// What one position of a rule's counting names.
#[derive(Clone, Copy, Debug)]
pub enum Position {
    /// A civil date.
    Day(CivilDate),
    /// A day the calendar does not have, such as the 31st of a 30-day month.
    NoSuchDay,
    /// A date further out than a walk steps.
    PastTheRange,
    /// A lunar position past the years the lunar calendar is known for.
    PastTheCalendar,
}

/// The walk's running state. The two frequencies that reach a position by
/// counting — a working-day rule counting working days, a lunar monthly rule
/// counting lunar months — step on from the last position they produced.
#[derive(Clone, Copy, Debug)]
pub struct Cursor {
    /// The occurrence in hand.
    pub current: CivilDate,
    /// How many occurrences the walk has produced, the anchor included.
    pub index: u64,
    /// The next position to ask for.
    pub position: u64,
    /// Positions since the last occurrence that named no day.
    pub missing: u32,
    /// Positions since the last occurrence that fell at or before it.
    pub behind: u32,
    /// The last working-day position.
    pub workday: Option<CivilDate>,
    /// The last lunar month a monthly rule produced.
    pub lunar_month: Option<LunarMonth>,
}

/// The cursor a walk starts from: the anchor in hand, nothing counted yet.
pub open spec fn first_cursor(anchor: CivilDate) -> Cursor {
    Cursor {
        current: anchor,
        index: 1,
        position: 0,
        missing: 0,
        behind: 0,
        workday: None,
        lunar_month: None,
    }
}

/// The day of the month, or nothing when the month is too short for it.
pub open spec fn day_of(year: int, month: int, day: int) -> Option<CivilDate> {
    if day <= month_length(year, month) {
        Some(CivilDate { year: year as i64, month: month as u32, day: day as u32 })
    } else {
        None
    }
}

/// A lunar month as a date the month counting can locate it by.
pub open spec fn lunar_month_start(month: LunarMonth) -> LunarDate {
    LunarDate { year: month.year, month: month.month, leap: month.leap, day: 1 }
}

/// What a lunar day gives as a position.
pub open spec fn lunar_position(month: LunarMonth, day: int) -> Position {
    if !month_in_range(month) {
        Position::PastTheRange
    } else {
        match spec_day_in(month, day) {
            Some(date) => Position::Day(date),
            None => Position::NoSuchDay,
        }
    }
}

/// The date at the cursor's position of the rule's own counting, and the
/// cursor with whatever the counting carries on updated.
///
/// Position 0 is where the rule starts counting: the anchor for every
/// frequency except a monthly or weekly rule that names days of its own, where
/// it is the first named day of the anchor's own month or week.
pub open spec fn spec_candidate(
    rule: RecurrenceRule,
    anchor: CivilDate,
    weekdays: Seq<i64>,
    lunar: LunarDate,
    cursor: Cursor,
) -> (Position, Cursor) {
    let interval = rule.interval as int;
    let position = cursor.position as int;
    let steps = position * interval;
    let is_lunar = rule.calendar == RecurrenceCalendar::Lunar;
    match rule.frequency {
        RecurrenceFrequency::Daily => if steps > DAY_STEP_LIMIT {
            (Position::PastTheRange, cursor)
        } else {
            (Position::Day(spec_civil_from_days(spec_days_from_civil(anchor) + steps)), cursor)
        },
        RecurrenceFrequency::Weekly => {
            let named = weekdays.len() as int;
            let week = position / named;
            if week * interval * 7 > DAY_STEP_LIMIT {
                (Position::PastTheRange, cursor)
            } else {
                let monday = spec_days_from_civil(anchor) - spec_weekday_index(anchor);
                (
                    Position::Day(
                        spec_civil_from_days(
                            monday + week * interval * 7 + weekdays[position % named],
                        ),
                    ),
                    cursor,
                )
            }
        },
        RecurrenceFrequency::Monthly => if is_lunar {
            let month = match cursor.lunar_month {
                Some(previous) => spec_month_after(lunar_month_start(previous), interval),
                None => spec_month_after(lunar, 0),
            };
            match month {
                None => (Position::PastTheCalendar, cursor),
                Some(m) => {
                    let day = if rule.on_last_day {
                        m.length as int
                    } else {
                        match rule.month_day {
                            Some(d) => d as int,
                            None => lunar.day as int,
                        }
                    };
                    (lunar_position(m, day), Cursor { lunar_month: Some(m), ..cursor })
                },
            }
        } else if steps > MONTH_STEP_LIMIT {
            (Position::PastTheRange, cursor)
        } else {
            let (year, month) = spec_add_months(anchor.year as int, anchor.month as int, steps);
            let day = if rule.on_last_day {
                month_length(year, month)
            } else {
                match rule.month_day {
                    Some(d) => d as int,
                    None => anchor.day as int,
                }
            };
            (
                match day_of(year, month, day) {
                    Some(date) => Position::Day(date),
                    None => Position::NoSuchDay,
                },
                cursor,
            )
        },
        RecurrenceFrequency::Yearly => if is_lunar {
            let year = lunar.year + steps;
            if !covers(year) {
                (Position::PastTheCalendar, cursor)
            } else {
                match spec_month_of_year(year, lunar.month as int, lunar.leap) {
                    None => (Position::NoSuchDay, cursor),
                    Some(m) => (lunar_position(m, lunar.day as int), cursor),
                }
            }
        } else if steps > YEAR_STEP_LIMIT {
            (Position::PastTheRange, cursor)
        } else {
            let (year, month) = spec_add_months(
                anchor.year as int,
                anchor.month as int,
                steps * 12,
            );
            (
                match day_of(year, month, anchor.day as int) {
                    Some(date) => Position::Day(date),
                    None => Position::NoSuchDay,
                },
                cursor,
            )
        },
        RecurrenceFrequency::Workday => match cursor.workday {
            None => (Position::Day(anchor), Cursor { workday: Some(anchor), ..cursor }),
            Some(previous) => if spec_days_from_civil(previous) > DAY_STEP_LIMIT {
                (Position::PastTheRange, cursor)
            } else {
                let date = spec_working_day_after(previous, rule.interval as nat);
                (Position::Day(date), Cursor { workday: Some(date), ..cursor })
            },
        },
    }
}

/// How far the occurrence in hand still is from the date asked about.
pub open spec fn progress_left(after: CivilDate, current: CivilDate) -> nat {
    if spec_days_from_civil(current) > spec_days_from_civil(after) {
        0
    } else {
        (spec_days_from_civil(after) - spec_days_from_civil(current) + 1) as nat
    }
}

/// The walk from `cursor` to the first occurrence after `after`.
///
/// Each round first asks whether the occurrence in hand ends the walk — past
/// the end date, past the date asked about, or the last one the count allows —
/// and otherwise takes the next position: a later date is the next
/// occurrence, and a day the calendar does not have is skipped without
/// spending the count.
pub open spec fn spec_walk(
    rule: RecurrenceRule,
    anchor: CivilDate,
    after: CivilDate,
    until: Option<CivilDate>,
    limit: Option<u32>,
    weekdays: Seq<i64>,
    lunar: LunarDate,
    cursor: Cursor,
) -> Result<Option<CivilDate>, RecurrenceError>
    decreases progress_left(after, cursor.current), MAX_MISSING_POSITIONS + 1 - cursor.missing,
        MAX_MISSING_POSITIONS + 1 - cursor.behind,
{
    let current = cursor.current;
    if until matches Some(end) && spec_days_from_civil(current) > spec_days_from_civil(end) {
        Ok(None)
    } else if spec_days_from_civil(current) > spec_days_from_civil(after) {
        Ok(Some(current))
    } else if limit matches Some(count) && cursor.index >= count {
        Ok(None)
    } else if cursor.position >= POSITION_LIMIT || cursor.missing > MAX_MISSING_POSITIONS
        || cursor.behind > MAX_MISSING_POSITIONS {
        Ok(None)
    } else {
        let (found, moved) = spec_candidate(rule, anchor, weekdays, lunar, cursor);
        let next = Cursor { position: (cursor.position + 1) as u64, ..moved };
        match found {
            Position::Day(date) => if spec_days_from_civil(date) > spec_days_from_civil(current) {
                spec_walk(
                    rule,
                    anchor,
                    after,
                    until,
                    limit,
                    weekdays,
                    lunar,
                    Cursor {
                        current: date,
                        index: (cursor.index + 1) as u64,
                        missing: 0,
                        behind: 0,
                        ..next
                    },
                )
            } else if cursor.behind + 1 > MAX_MISSING_POSITIONS {
                Ok(None)
            } else {
                spec_walk(
                    rule,
                    anchor,
                    after,
                    until,
                    limit,
                    weekdays,
                    lunar,
                    Cursor { behind: (cursor.behind + 1) as u32, ..next },
                )
            },
            Position::NoSuchDay => if cursor.missing + 1 > MAX_MISSING_POSITIONS {
                Ok(None)
            } else {
                spec_walk(
                    rule,
                    anchor,
                    after,
                    until,
                    limit,
                    weekdays,
                    lunar,
                    Cursor { missing: (cursor.missing + 1) as u32, ..next },
                )
            },
            Position::PastTheRange => Ok(None),
            // The walk has reached the end of the lunar calendar. A rule that
            // ends before the calendar does has simply ended; so has one whose
            // every position since its last occurrence named no day. Otherwise
            // the next occurrence is a real day this calendar cannot compute.
            Position::PastTheCalendar => if (until matches Some(end) && end.year <= LAST_YEAR)
                || cursor.missing > 0 {
                Ok(None)
            } else {
                Err(RecurrenceError::LunarOutOfRange)
            },
        }
    }
}


/// A date as this module is handed one: a day that exists, in years 0 to 9999.
pub open spec fn readable_date(date: CivilDate) -> bool {
    is_valid_date(date) && 0 <= date.year <= 9999
}

/// Whether the rule counts its positions on the lunar calendar: only
/// "monthly" and "yearly" do.
pub open spec fn spec_counts_in_lunar_months(rule: RecurrenceRule) -> bool {
    rule.calendar == RecurrenceCalendar::Lunar && (rule.frequency == RecurrenceFrequency::Monthly
        || rule.frequency == RecurrenceFrequency::Yearly)
}

proof fn lemma_readable_days(date: CivilDate)
    requires
        readable_date(date),
    ensures
        -719_528 <= spec_days_from_civil(date) <= 2_932_896,
        crate::civil::in_range(date),
{
    let first = CivilDate { year: 0, month: 1, day: 1 };
    let last = CivilDate { year: 9999, month: 12, day: 31 };
    lemma_order_is_chronological(first, date);
    lemma_order_is_chronological(date, last);
    assert(spec_days_from_civil(first) == -719_528);
    assert(spec_days_from_civil(last) == 2_932_896);
}

/// What the walk keeps true of its cursor.
pub open spec fn cursor_ok(anchor: CivilDate, cursor: Cursor) -> bool {
    &&& is_valid_date(cursor.current)
    &&& crate::civil::in_range(cursor.current)
    &&& cursor.index <= cursor.position + 1
    &&& cursor.position <= POSITION_LIMIT
    &&& cursor.missing <= MAX_MISSING_POSITIONS
    &&& cursor.behind <= MAX_MISSING_POSITIONS
    &&& (cursor.workday matches Some(previous) ==> {
        &&& is_valid_date(previous)
        &&& crate::civil::in_range(previous)
        &&& spec_days_from_civil(anchor) <= spec_days_from_civil(previous) <= WALK_DAY_LIMIT
    })
}

/// What the walk is handed: a rule the contract accepts, a readable anchor,
/// the weekdays of that rule, and the anchor read on the lunar calendar when
/// the rule counts there.
pub open spec fn walk_inputs_ok(rule: RecurrenceRule, anchor: CivilDate, weekdays: Seq<i64>, lunar: LunarDate) -> bool {
    &&& crate::contracts::pattern_fault(rule) is None
    &&& readable_date(anchor)
    &&& weekdays.len() > 0
    &&& forall|i: int| 0 <= i < weekdays.len() ==> 0 <= #[trigger] weekdays[i] < 7
    &&& (spec_counts_in_lunar_months(rule) ==> covers(lunar.year as int))
}

/// The date at the cursor's position, and the cursor with its counting
/// carried on.
fn candidate(
    rule: &RecurrenceRule,
    anchor: CivilDate,
    weekdays: &Vec<i64>,
    lunar: LunarDate,
    sky: &Sky,
    cursor: Cursor,
) -> (answer: (Position, Cursor))
    requires
        walk_inputs_ok(*rule, anchor, weekdays@, lunar),
        cursor_ok(anchor, cursor),
        cursor.position < POSITION_LIMIT,
    ensures
        answer == spec_candidate(*rule, anchor, weekdays@, lunar, cursor),
        cursor_ok(anchor, answer.1),
        answer.1.current == cursor.current,
        answer.1.index == cursor.index,
        answer.1.position == cursor.position,
        answer.1.missing == cursor.missing,
        answer.1.behind == cursor.behind,
        answer.0 matches Position::Day(date) ==> is_valid_date(date) && crate::civil::in_range(date),
{
    proof {
        lemma_readable_days(anchor);
    }
    let interval = rule.interval as i64;
    let position = cursor.position as i64;
    assert(0 <= position * interval <= 1_000_000_000_000 * 999) by (nonlinear_arith)
        requires
            0 <= position <= 1_000_000_000_000,
            0 <= interval <= 999,
    ;
    let steps = position * interval;
    let is_lunar = rule.calendar == RecurrenceCalendar::Lunar;
    match rule.frequency {
        RecurrenceFrequency::Daily => {
            if steps > DAY_STEP_LIMIT {
                (Position::PastTheRange, cursor)
            } else {
                proof {
                    lemma_civil_from_days_valid(spec_days_from_civil(anchor) + steps);
                }
                (Position::Day(civil_from_days(days_from_civil(anchor) + steps)), cursor)
            }
        },
        RecurrenceFrequency::Weekly => {
            let named = weekdays.len() as u64;
            let week = (cursor.position / named) as i64;
            assert(0 <= week * interval <= 1_000_000_000_000 * 999) by (nonlinear_arith)
                requires
                    0 <= week <= 1_000_000_000_000,
                    0 <= interval <= 999,
            ;
            if week * interval * 7 > DAY_STEP_LIMIT {
                (Position::PastTheRange, cursor)
            } else {
                let monday = days_from_civil(anchor) - weekday_index(anchor);
                let day = weekdays[(cursor.position % named) as usize];
                proof {
                    lemma_civil_from_days_valid(monday + week * interval * 7 + day);
                }
                (Position::Day(civil_from_days(monday + week * interval * 7 + day)), cursor)
            }
        },
        RecurrenceFrequency::Monthly => {
            if is_lunar {
                let month = match cursor.lunar_month {
                    Some(previous) => sky.month_after(
                        LunarDate {
                            year: previous.year,
                            month: previous.month,
                            leap: previous.leap,
                            day: 1,
                        },
                        interval,
                    ),
                    None => sky.month_after(lunar, 0),
                };
                match month {
                    None => (Position::PastTheCalendar, cursor),
                    Some(m) => {
                        let day = if rule.on_last_day {
                            m.length
                        } else {
                            match rule.month_day {
                                Some(d) => d,
                                None => lunar.day,
                            }
                        };
                        (lunar_day(&m, day), Cursor { lunar_month: Some(m), ..cursor })
                    },
                }
            } else if steps > MONTH_STEP_LIMIT {
                (Position::PastTheRange, cursor)
            } else {
                let (year, month) = add_months(anchor.year, anchor.month, steps);
                let length = days_in_month(year, month);
                let day = if rule.on_last_day {
                    length
                } else {
                    match rule.month_day {
                        Some(d) => d,
                        None => anchor.day,
                    }
                };
                if day <= length {
                    (Position::Day(CivilDate { year, month, day }), cursor)
                } else {
                    (Position::NoSuchDay, cursor)
                }
            }
        },
        RecurrenceFrequency::Yearly => {
            if is_lunar {
                let year = lunar.year + steps;
                if !covers_year(year) {
                    (Position::PastTheCalendar, cursor)
                } else {
                    match sky.month_of_year(year, lunar.month, lunar.leap) {
                        None => (Position::NoSuchDay, cursor),
                        Some(m) => (lunar_day(&m, lunar.day), cursor),
                    }
                }
            } else if steps > YEAR_STEP_LIMIT {
                (Position::PastTheRange, cursor)
            } else {
                let (year, month) = add_months(anchor.year, anchor.month, steps * 12);
                let length = days_in_month(year, month);
                if anchor.day <= length {
                    (Position::Day(CivilDate { year, month, day: anchor.day }), cursor)
                } else {
                    (Position::NoSuchDay, cursor)
                }
            }
        },
        RecurrenceFrequency::Workday => {
            match cursor.workday {
                None => (Position::Day(anchor), Cursor { workday: Some(anchor), ..cursor }),
                Some(previous) => {
                    if days_from_civil(previous) > DAY_STEP_LIMIT {
                        (Position::PastTheRange, cursor)
                    } else {
                        let date = working_day_after(previous, rule.interval);
                        (Position::Day(date), Cursor { workday: Some(date), ..cursor })
                    }
                },
            }
        },
    }
}

/// A day of a lunar month as a position.
fn lunar_day(month: &LunarMonth, day: u32) -> (found: Position)
    ensures
        found == lunar_position(*month, day as int),
        found matches Position::Day(date) ==> is_valid_date(date) && crate::civil::in_range(date),
{
    let start = month.start as i128;
    if !(start >= -(DAY_LIMIT as i128) && start + month.length as i128 <= DAY_LIMIT as i128) {
        return Position::PastTheRange;
    }
    if day >= 1 && day <= month.length {
        proof {
            lemma_civil_from_days_valid(month.start + day - 1);
        }
    }
    match day_in(month, day) {
        Some(date) => Position::Day(date),
        None => Position::NoSuchDay,
    }
}


/// The walk from the anchor to the first occurrence after `after`.
fn walk(
    rule: &RecurrenceRule,
    anchor: CivilDate,
    after: CivilDate,
    until: Option<CivilDate>,
    limit: Option<u32>,
    weekdays: &Vec<i64>,
    lunar: LunarDate,
    sky: &Sky,
) -> (answer: Result<Option<CivilDate>, RecurrenceError>)
    requires
        walk_inputs_ok(*rule, anchor, weekdays@, lunar),
        readable_date(after),
        until matches Some(end) ==> readable_date(end),
    ensures
        answer == spec_walk(*rule, anchor, after, until, limit, weekdays@, lunar, first_cursor(anchor)),
        answer matches Ok(Some(date)) ==> is_valid_date(date) && crate::civil::in_range(date),
{
    proof {
        lemma_readable_days(anchor);
        lemma_readable_days(after);
        if let Some(end) = until {
            lemma_readable_days(end);
        }
    }
    let mut cursor = Cursor {
        current: anchor,
        index: 1,
        position: 0,
        missing: 0,
        behind: 0,
        workday: None,
        lunar_month: None,
    };
    let after_day = days_from_civil(after);
    loop
        invariant
            walk_inputs_ok(*rule, anchor, weekdays@, lunar),
            readable_date(after),
            after_day == spec_days_from_civil(after),
            until matches Some(end) ==> readable_date(end),
            cursor_ok(anchor, cursor),
            spec_walk(*rule, anchor, after, until, limit, weekdays@, lunar, cursor) == spec_walk(
                *rule,
                anchor,
                after,
                until,
                limit,
                weekdays@,
                lunar,
                first_cursor(anchor),
            ),
        decreases progress_left(after, cursor.current), MAX_MISSING_POSITIONS + 1 - cursor.missing,
            MAX_MISSING_POSITIONS + 1 - cursor.behind,
    {
        let current_day = days_from_civil(cursor.current);
        if let Some(end) = until {
            proof {
                lemma_readable_days(end);
            }
            if current_day > days_from_civil(end) {
                return Ok(None);
            }
        }
        if current_day > after_day {
            return Ok(Some(cursor.current));
        }
        // The occurrence in hand is the last one the rule counts, so there is
        // no next one to go looking for.
        if let Some(count) = limit {
            if cursor.index >= count as u64 {
                return Ok(None);
            }
        }
        if cursor.position >= POSITION_LIMIT || cursor.missing > MAX_MISSING_POSITIONS
            || cursor.behind > MAX_MISSING_POSITIONS {
            return Ok(None);
        }
        let (found, moved) = candidate(rule, anchor, weekdays, lunar, sky, cursor);
        let next = Cursor { position: cursor.position + 1, ..moved };
        match found {
            Position::Day(date) => {
                if days_from_civil(date) > current_day {
                    cursor = Cursor {
                        current: date,
                        index: cursor.index + 1,
                        missing: 0,
                        behind: 0,
                        ..next
                    };
                } else if cursor.behind + 1 > MAX_MISSING_POSITIONS {
                    return Ok(None);
                } else {
                    cursor = Cursor { behind: cursor.behind + 1, ..next };
                }
            },
            // A position the calendar does not have is skipped rather than
            // moved, and must not consume a count.
            Position::NoSuchDay => {
                if cursor.missing + 1 > MAX_MISSING_POSITIONS {
                    return Ok(None);
                }
                cursor = Cursor { missing: cursor.missing + 1, ..next };
            },
            Position::PastTheRange => {
                return Ok(None);
            },
            Position::PastTheCalendar => {
                let rule_ends_first = match until {
                    Some(end) => end.year <= LAST_YEAR,
                    None => false,
                };
                if rule_ends_first || cursor.missing > 0 {
                    return Ok(None);
                }
                return Err(RecurrenceError::LunarOutOfRange);
            },
        }
    }
}

/// An end date as the rule states it; one that cannot be read is no end date.
pub open spec fn spec_until(rule: RecurrenceRule) -> Option<CivilDate> {
    match rule.until {
        Some(text) => spec_parse_date(vstd::utf8::encode_utf8(text@)),
        None => None,
    }
}

/// The lunar date a rule that does not count in lunar months carries, unread.
pub open spec fn unused_lunar_date() -> LunarDate {
    LunarDate { year: 0, month: 1, leap: false, day: 1 }
}

/// When the rule happens next strictly after `after`, counted from `anchor`,
/// in dates rather than text.
pub open spec fn spec_next_date(rule: RecurrenceRule, anchor: CivilDate, after: CivilDate) -> Result<Option<CivilDate>, RecurrenceError> {
    spec_next_date_within(rule, rule.count, anchor, after)
}

/// When the rule happens next strictly after `after`, counted from `anchor`,
/// with `limit` in place of the rule's own count: the series ends after
/// `limit` occurrences, or runs on without one.
pub open spec fn spec_next_date_within(rule: RecurrenceRule, limit: Option<u32>, anchor: CivilDate, after: CivilDate) -> Result<Option<CivilDate>, RecurrenceError> {
    match crate::contracts::pattern_fault(rule) {
        Some(error) => Err(RecurrenceError::UnusableRule(error)),
        None => if spec_counts_in_lunar_months(rule) && spec_from_civil(anchor) is None {
            Err(RecurrenceError::LunarOutOfRange)
        } else {
            spec_walk(
                rule,
                anchor,
                after,
                spec_until(rule),
                limit,
                spec_weekly_days(rule, anchor),
                if spec_counts_in_lunar_months(rule) {
                    spec_from_civil(anchor)->0
                } else {
                    unused_lunar_date()
                },
                first_cursor(anchor),
            )
        },
    }
}

/// The body of [`next_occurrence`], in dates rather than strings.
pub fn next_date(rule: &RecurrenceRule, anchor: CivilDate, after: CivilDate) -> (answer: Result<Option<CivilDate>, RecurrenceError>)
    requires
        readable_date(anchor),
        readable_date(after),
    ensures
        answer == spec_next_date(*rule, anchor, after),
        answer matches Ok(Some(date)) ==> is_valid_date(date) && crate::civil::in_range(date),
{
    next_date_within(rule, rule.count, anchor, after)
}

/// [`next_date`] with `limit` in place of the rule's own count.
pub fn next_date_within(rule: &RecurrenceRule, limit: Option<u32>, anchor: CivilDate, after: CivilDate) -> (answer: Result<Option<CivilDate>, RecurrenceError>)
    requires
        readable_date(anchor),
        readable_date(after),
    ensures
        answer == spec_next_date_within(*rule, limit, anchor, after),
        answer matches Ok(Some(date)) ==> is_valid_date(date) && crate::civil::in_range(date),
{
    // An interval of zero would make the walk stand still, so the contract's
    // own check is the guard.
    if let Err(error) = rule.validate_pattern() {
        return Err(RecurrenceError::UnusableRule(error));
    }
    let until = match &rule.until {
        Some(text) => parse_date(text.as_str()),
        None => None,
    };
    proof {
        if let Some(end) = until {
            crate::civil::lemma_parsed_date_readable(vstd::utf8::encode_utf8(rule.until->0@));
        }
        lemma_readable_days(anchor);
    }
    let weekdays = weekly_days(rule, anchor);
    let sky = Sky::new();
    let counts_lunar = rule.calendar == RecurrenceCalendar::Lunar && (rule.frequency
        == RecurrenceFrequency::Monthly || rule.frequency == RecurrenceFrequency::Yearly);
    let lunar = if counts_lunar {
        match sky.from_civil(anchor) {
            Some(lunar) => lunar,
            None => return Err(RecurrenceError::LunarOutOfRange),
        }
    } else {
        LunarDate { year: 0, month: 1, leap: false, day: 1 }
    };
    proof {
        if counts_lunar {
            crate::lunar::lemma_from_civil_covers(anchor);
        }
    }
    walk(rule, anchor, after, until, limit, &weekdays, lunar, &sky)
}


/// One occurrence of a repeat rule: a date, and whether the answer counted
/// working days through a year no published arrangement covers and read those
/// days as Monday to Friday.
#[derive(Clone, Debug)]
pub struct Occurrence {
    /// The civil date it falls on, `YYYY-MM-DD`.
    pub date: String,
    /// Whether the working days were read as Monday to Friday for some year
    /// between the anchor and the answer; only a working-day rule can set it.
    pub assumed_monday_to_friday: bool,
}

/// Whether the walk to `date` read a day of a year the published arrangement
/// does not cover. Only a working-day rule reads the arrangement, and it reads
/// every day between the anchor and the answer, so the two ends decide it.
pub open spec fn spec_counted_past_the_published_years(rule: RecurrenceRule, anchor: CivilDate, date: CivilDate) -> bool {
    rule.frequency == RecurrenceFrequency::Workday && (anchor.year < FIRST_COVERED_YEAR
        || date.year > LAST_COVERED_YEAR)
}

fn counted_past_the_published_years(rule: &RecurrenceRule, anchor: CivilDate, date: CivilDate) -> (past: bool)
    ensures
        past == spec_counted_past_the_published_years(*rule, anchor, date),
{
    if rule.frequency != RecurrenceFrequency::Workday {
        return false;
    }
    match coverage() {
        Some((first, last)) => anchor.year < first || date.year > last,
        None => true,
    }
}

/// When the rule happens next, strictly after `after`.
///
/// `anchor` is the occurrence the rule is counted from — the task's own date —
/// and is always an occurrence itself. `Ok(None)` means there is no next
/// occurrence: the series ran past its end date, or has produced as many
/// occurrences as it counts, or names a position the calendar does not bring
/// round again. A rule carrying both an end date and a count stops at
/// whichever comes first; the rest of the contract's checks on a rule apply. Both dates are `YYYY-MM-DD`; asking from before the anchor
/// answers with the anchor, so a caller walks the series by feeding each answer
/// back in as the next `after`, keeping the original anchor.
pub fn next_occurrence(rule: &RecurrenceRule, anchor: &str, after: &str) -> (answer: Result<Option<Occurrence>, RecurrenceError>)
    ensures
        match (spec_parse_date(anchor.spec_bytes()), spec_parse_date(after.spec_bytes())) {
            (Some(a), Some(b)) => match spec_next_date(*rule, a, b) {
                Err(error) => answer == Err::<Option<Occurrence>, RecurrenceError>(error),
                Ok(None) => answer == Ok::<Option<Occurrence>, RecurrenceError>(None),
                Ok(Some(date)) => answer matches Ok(Some(occurrence)) && occurrence.date@
                    == spec_format_iso_date(date) && occurrence.assumed_monday_to_friday
                    == spec_counted_past_the_published_years(*rule, a, date),
            },
            _ => answer == Err::<Option<Occurrence>, RecurrenceError>(RecurrenceError::UnreadableDate),
        },
{
    let anchor_date = match parse_date(anchor) {
        Some(date) => date,
        None => return Err(RecurrenceError::UnreadableDate),
    };
    let after_date = match parse_date(after) {
        Some(date) => date,
        None => return Err(RecurrenceError::UnreadableDate),
    };
    proof {
        crate::civil::lemma_parsed_date_readable(anchor.spec_bytes());
        crate::civil::lemma_parsed_date_readable(after.spec_bytes());
    }
    let anchor = anchor_date;
    match next_date(rule, anchor, after_date) {
        Err(error) => Err(error),
        Ok(None) => Ok(None),
        Ok(Some(date)) => Ok(
            Some(
                Occurrence {
                    assumed_monday_to_friday: counted_past_the_published_years(rule, anchor, date),
                    date: format_iso_date(date),
                },
            ),
        ),
    }
}

/// The sentence a refusal is reported with.
pub open spec fn recurrence_error_message(error: RecurrenceError) -> Seq<char> {
    match error {
        RecurrenceError::UnreadableDate => "a repeat rule is counted from dates written as YYYY-MM-DD"@,
        RecurrenceError::UnusableRule(inner) => crate::contracts::error_message(inner),
        RecurrenceError::LunarOutOfRange => "the lunar calendar is only known from 1929 to 2100"@,
    }
}

impl RecurrenceError {
    /// The sentence this refusal is reported with.
    pub fn message(&self) -> (text: &'static str)
        ensures
            text@ == recurrence_error_message(*self),
    {
        match self {
            RecurrenceError::UnreadableDate => "a repeat rule is counted from dates written as YYYY-MM-DD",
            RecurrenceError::UnusableRule(inner) => inner.message(),
            RecurrenceError::LunarOutOfRange => "the lunar calendar is only known from 1929 to 2100",
        }
    }
}


#[verifier::rlimit(100)]
proof fn lemma_walk_answer(
    rule: RecurrenceRule,
    anchor: CivilDate,
    after: CivilDate,
    until: Option<CivilDate>,
    limit: Option<u32>,
    weekdays: Seq<i64>,
    lunar: LunarDate,
    cursor: Cursor,
)
    ensures
        spec_walk(rule, anchor, after, until, limit, weekdays, lunar, cursor) matches Ok(Some(date)) ==> {
            &&& spec_days_from_civil(date) > spec_days_from_civil(after)
            &&& (until matches Some(end) ==> spec_days_from_civil(date) <= spec_days_from_civil(end))
        },
    decreases progress_left(after, cursor.current), MAX_MISSING_POSITIONS + 1 - cursor.missing,
        MAX_MISSING_POSITIONS + 1 - cursor.behind,
{
    let current = cursor.current;
    if until matches Some(end) && spec_days_from_civil(current) > spec_days_from_civil(end) {
    } else if spec_days_from_civil(current) > spec_days_from_civil(after) {
    } else if limit matches Some(count) && cursor.index >= count {
    } else if cursor.position >= POSITION_LIMIT || cursor.missing > MAX_MISSING_POSITIONS
        || cursor.behind > MAX_MISSING_POSITIONS {
    } else {
        let (found, moved) = spec_candidate(rule, anchor, weekdays, lunar, cursor);
        let next = Cursor { position: (cursor.position + 1) as u64, ..moved };
        match found {
            Position::Day(date) => if spec_days_from_civil(date) > spec_days_from_civil(current) {
                lemma_walk_answer(
                    rule,
                    anchor,
                    after,
                    until,
                    limit,
                    weekdays,
                    lunar,
                    Cursor {
                        current: date,
                        index: (cursor.index + 1) as u64,
                        missing: 0,
                        behind: 0,
                        ..next
                    },
                );
            } else if cursor.behind + 1 <= MAX_MISSING_POSITIONS {
                lemma_walk_answer(
                    rule,
                    anchor,
                    after,
                    until,
                    limit,
                    weekdays,
                    lunar,
                    Cursor { behind: (cursor.behind + 1) as u32, ..next },
                );
            },
            Position::NoSuchDay => if cursor.missing + 1 <= MAX_MISSING_POSITIONS {
                lemma_walk_answer(
                    rule,
                    anchor,
                    after,
                    until,
                    limit,
                    weekdays,
                    lunar,
                    Cursor { missing: (cursor.missing + 1) as u32, ..next },
                );
            },
            _ => {},
        }
    }
}

/// The next occurrence is strictly after the date asked about, and never past
/// the rule's end date.
pub proof fn lemma_next_is_after_and_within_the_end(rule: RecurrenceRule, anchor: CivilDate, after: CivilDate)
    ensures
        spec_next_date(rule, anchor, after) matches Ok(Some(date)) ==> {
            &&& spec_days_from_civil(date) > spec_days_from_civil(after)
            &&& (spec_until(rule) matches Some(end) ==> spec_days_from_civil(date)
                <= spec_days_from_civil(end))
        },
{
    lemma_within_is_after_and_within_the_end(rule, rule.count, anchor, after);
}

proof fn lemma_walk_is_not_before_its_cursor(
    rule: RecurrenceRule,
    anchor: CivilDate,
    after: CivilDate,
    until: Option<CivilDate>,
    limit: Option<u32>,
    weekdays: Seq<i64>,
    lunar: LunarDate,
    cursor: Cursor,
)
    ensures
        spec_walk(rule, anchor, after, until, limit, weekdays, lunar, cursor) matches Ok(Some(found))
            ==> spec_days_from_civil(found) >= spec_days_from_civil(cursor.current),
    decreases progress_left(after, cursor.current), MAX_MISSING_POSITIONS + 1 - cursor.missing,
        MAX_MISSING_POSITIONS + 1 - cursor.behind,
{
    let current = cursor.current;
    if until matches Some(end) && spec_days_from_civil(current) > spec_days_from_civil(end) {
    } else if spec_days_from_civil(current) > spec_days_from_civil(after) {
    } else if limit matches Some(count) && cursor.index >= count {
    } else if cursor.position >= POSITION_LIMIT || cursor.missing > MAX_MISSING_POSITIONS
        || cursor.behind > MAX_MISSING_POSITIONS {
    } else {
        let (found, moved) = spec_candidate(rule, anchor, weekdays, lunar, cursor);
        let next = Cursor { position: (cursor.position + 1) as u64, ..moved };
        match found {
            Position::Day(date) => if spec_days_from_civil(date) > spec_days_from_civil(current) {
                lemma_walk_is_not_before_its_cursor(
                    rule,
                    anchor,
                    after,
                    until,
                    limit,
                    weekdays,
                    lunar,
                    Cursor { current: date, index: (cursor.index + 1) as u64, missing: 0, behind: 0, ..next },
                );
            } else if cursor.behind + 1 > MAX_MISSING_POSITIONS {
            } else {
                lemma_walk_is_not_before_its_cursor(
                    rule,
                    anchor,
                    after,
                    until,
                    limit,
                    weekdays,
                    lunar,
                    Cursor { behind: (cursor.behind + 1) as u32, ..next },
                );
            },
            Position::NoSuchDay => if cursor.missing + 1 > MAX_MISSING_POSITIONS {
            } else {
                lemma_walk_is_not_before_its_cursor(
                    rule,
                    anchor,
                    after,
                    until,
                    limit,
                    weekdays,
                    lunar,
                    Cursor { missing: (cursor.missing + 1) as u32, ..next },
                );
            },
            _ => {},
        }
    }
}

#[verifier::spinoff_prover]
#[verifier::rlimit(100)]
proof fn lemma_walk_from_a_later_day(
    rule: RecurrenceRule,
    anchor: CivilDate,
    after: CivilDate,
    later: CivilDate,
    until: Option<CivilDate>,
    limit: Option<u32>,
    weekdays: Seq<i64>,
    lunar: LunarDate,
    cursor: Cursor,
)
    requires
        spec_days_from_civil(after) <= spec_days_from_civil(later),
        spec_walk(rule, anchor, after, until, limit, weekdays, lunar, cursor) matches Ok(Some(found))
            && spec_days_from_civil(later) < spec_days_from_civil(found),
    ensures
        spec_walk(rule, anchor, later, until, limit, weekdays, lunar, cursor) == spec_walk(
            rule,
            anchor,
            after,
            until,
            limit,
            weekdays,
            lunar,
            cursor,
        ),
    decreases progress_left(after, cursor.current), MAX_MISSING_POSITIONS + 1 - cursor.missing,
        MAX_MISSING_POSITIONS + 1 - cursor.behind,
{
    let current = cursor.current;
    if until matches Some(end) && spec_days_from_civil(current) > spec_days_from_civil(end) {
    } else if spec_days_from_civil(current) > spec_days_from_civil(after) {
    } else if limit matches Some(count) && cursor.index >= count {
    } else if cursor.position >= POSITION_LIMIT || cursor.missing > MAX_MISSING_POSITIONS
        || cursor.behind > MAX_MISSING_POSITIONS {
    } else {
        let (found, moved) = spec_candidate(rule, anchor, weekdays, lunar, cursor);
        let next = Cursor { position: (cursor.position + 1) as u64, ..moved };
        match found {
            Position::Day(date) => if spec_days_from_civil(date) > spec_days_from_civil(current) {
                lemma_walk_from_a_later_day(
                    rule,
                    anchor,
                    after,
                    later,
                    until,
                    limit,
                    weekdays,
                    lunar,
                    Cursor { current: date, index: (cursor.index + 1) as u64, missing: 0, behind: 0, ..next },
                );
            } else if cursor.behind + 1 > MAX_MISSING_POSITIONS {
            } else {
                lemma_walk_from_a_later_day(
                    rule,
                    anchor,
                    after,
                    later,
                    until,
                    limit,
                    weekdays,
                    lunar,
                    Cursor { behind: (cursor.behind + 1) as u32, ..next },
                );
            },
            Position::NoSuchDay => if cursor.missing + 1 > MAX_MISSING_POSITIONS {
            } else {
                lemma_walk_from_a_later_day(
                    rule,
                    anchor,
                    after,
                    later,
                    until,
                    limit,
                    weekdays,
                    lunar,
                    Cursor { missing: (cursor.missing + 1) as u32, ..next },
                );
            },
            _ => {},
        }
    }
}

/// The next occurrence is the first one: it is never before the anchor, and
/// asking from any day from `after` up to the day before it gives the same
/// answer, so no occurrence lies strictly between `after` and it.
pub proof fn lemma_next_is_the_first_occurrence_after(rule: RecurrenceRule, anchor: CivilDate, after: CivilDate)
    ensures
        spec_next_date(rule, anchor, after) matches Ok(Some(date)) ==> {
            &&& spec_days_from_civil(date) >= spec_days_from_civil(anchor)
            &&& forall|later: CivilDate|
                spec_days_from_civil(after) <= spec_days_from_civil(later) < spec_days_from_civil(date)
                    ==> #[trigger] spec_next_date(rule, anchor, later) == spec_next_date(rule, anchor, after)
        },
{
    if crate::contracts::pattern_fault(rule) is None && !(spec_counts_in_lunar_months(rule)
        && spec_from_civil(anchor) is None) {
        let lunar = if spec_counts_in_lunar_months(rule) {
            spec_from_civil(anchor)->0
        } else {
            unused_lunar_date()
        };
        let weekdays = spec_weekly_days(rule, anchor);
        lemma_walk_is_not_before_its_cursor(
            rule,
            anchor,
            after,
            spec_until(rule),
            rule.count,
            weekdays,
            lunar,
            first_cursor(anchor),
        );
        if let Ok(Some(date)) = spec_next_date(rule, anchor, after) {
            assert forall|later: CivilDate|
                spec_days_from_civil(after) <= spec_days_from_civil(later) < spec_days_from_civil(date)
                    implies #[trigger] spec_next_date(rule, anchor, later) == spec_next_date(rule, anchor, after) by {
                lemma_walk_from_a_later_day(
                    rule,
                    anchor,
                    after,
                    later,
                    spec_until(rule),
                    rule.count,
                    weekdays,
                    lunar,
                    first_cursor(anchor),
                );
            }
        }
    }
}

/// [`lemma_next_is_after_and_within_the_end`], whatever limit stands in for
/// the count.
pub proof fn lemma_within_is_after_and_within_the_end(rule: RecurrenceRule, limit: Option<u32>, anchor: CivilDate, after: CivilDate)
    ensures
        spec_next_date_within(rule, limit, anchor, after) matches Ok(Some(date)) ==> {
            &&& spec_days_from_civil(date) > spec_days_from_civil(after)
            &&& (spec_until(rule) matches Some(end) ==> spec_days_from_civil(date)
                <= spec_days_from_civil(end))
        },
{
    lemma_walk_answer(
        rule,
        anchor,
        after,
        spec_until(rule),
        limit,
        spec_weekly_days(rule, anchor),
        if spec_counts_in_lunar_months(rule) {
            spec_from_civil(anchor)->0
        } else {
            unused_lunar_date()
        },
        first_cursor(anchor),
    );
}

/// The anchor is an occurrence: asking from before it answers with it, unless
/// the end date has already passed.
pub proof fn lemma_asking_before_the_anchor_answers_with_it(rule: RecurrenceRule, anchor: CivilDate, after: CivilDate)
    requires
        crate::contracts::pattern_fault(rule) is None,
        !(spec_counts_in_lunar_months(rule) && spec_from_civil(anchor) is None),
        spec_days_from_civil(after) < spec_days_from_civil(anchor),
        spec_until(rule) matches Some(end) ==> spec_days_from_civil(anchor) <= spec_days_from_civil(end),
    ensures
        spec_next_date(rule, anchor, after) == Ok::<Option<CivilDate>, RecurrenceError>(Some(anchor)),
{
    lemma_within_before_the_anchor(rule, rule.count, anchor, after);
}

/// [`lemma_asking_before_the_anchor_answers_with_it`], whatever limit stands
/// in for the count.
proof fn lemma_within_before_the_anchor(rule: RecurrenceRule, limit: Option<u32>, anchor: CivilDate, after: CivilDate)
    requires
        crate::contracts::pattern_fault(rule) is None,
        !(spec_counts_in_lunar_months(rule) && spec_from_civil(anchor) is None),
        spec_days_from_civil(after) < spec_days_from_civil(anchor),
        spec_until(rule) matches Some(end) ==> spec_days_from_civil(anchor) <= spec_days_from_civil(end),
    ensures
        spec_next_date_within(rule, limit, anchor, after) == Ok::<Option<CivilDate>, RecurrenceError>(Some(anchor)),
{
}


/// A readable date's day number lies between those of 0000-01-01 and
/// 9999-12-31.
pub proof fn lemma_readable_days_public(date: CivilDate)
    requires
        readable_date(date),
    ensures
        -719_528 <= spec_days_from_civil(date) <= 2_932_896,
        crate::civil::in_range(date),
{
    lemma_readable_days(date);
}

// ---------------------------------------------------------------------------
// Walking a series forward.

/// The dates the series counted from `anchor` brings round after `after`, in
/// order, up to and including `last`: each next occurrence in turn, until
/// there is none or it falls past `last`.
pub open spec fn spec_series_after(rule: RecurrenceRule, limit: Option<u32>, anchor: CivilDate, after: CivilDate, last: CivilDate) -> Result<Seq<CivilDate>, RecurrenceError>
    decreases spec_days_from_civil(last) - spec_days_from_civil(after),
{
    match spec_next_date_within(rule, limit, anchor, after) {
        Err(error) => Err(error),
        Ok(None) => Ok(Seq::empty()),
        Ok(Some(date)) => if spec_days_from_civil(date) > spec_days_from_civil(last) {
            Ok(Seq::empty())
        } else {
            proof {
                lemma_within_is_after_and_within_the_end(rule, limit, anchor, after);
            }
            match spec_series_after(rule, limit, anchor, date, last) {
                Err(error) => Err(error),
                Ok(rest) => Ok(seq![date] + rest),
            }
        },
    }
}

/// The series counted from `anchor`, the anchor itself first, up to and
/// including `last`.
pub open spec fn spec_series_through(rule: RecurrenceRule, limit: Option<u32>, anchor: CivilDate, last: CivilDate) -> Result<Seq<CivilDate>, RecurrenceError> {
    match crate::contracts::pattern_fault(rule) {
        Some(error) => Err(RecurrenceError::UnusableRule(error)),
        None => if spec_counts_in_lunar_months(rule) && spec_from_civil(anchor) is None {
            Err(RecurrenceError::LunarOutOfRange)
        } else if spec_days_from_civil(anchor) > spec_days_from_civil(last) || (spec_until(rule) matches Some(end)
            && spec_days_from_civil(anchor) > spec_days_from_civil(end)) {
            Ok(Seq::empty())
        } else {
            continued(seq![anchor], spec_series_after(rule, limit, anchor, anchor, last))
        },
    }
}

/// `done` followed by what a walk still gives, or the walk's refusal.
pub open spec fn continued(done: Seq<CivilDate>, rest: Result<Seq<CivilDate>, RecurrenceError>) -> Result<Seq<CivilDate>, RecurrenceError> {
    match rest {
        Err(error) => Err(error),
        Ok(dates) => Ok(done + dates),
    }
}

/// Walking the series from any day before the anchor lists it from the
/// anchor on: the anchor is its first occurrence.
pub proof fn lemma_series_starts_at_the_anchor(rule: RecurrenceRule, limit: Option<u32>, anchor: CivilDate, after: CivilDate, last: CivilDate)
    requires
        spec_days_from_civil(after) < spec_days_from_civil(anchor),
    ensures
        spec_series_after(rule, limit, anchor, after, last) == spec_series_through(rule, limit, anchor, last),
{
    if crate::contracts::pattern_fault(rule) is None && !(spec_counts_in_lunar_months(rule)
        && spec_from_civil(anchor) is None) {
        if !(spec_until(rule) matches Some(end) && spec_days_from_civil(anchor) > spec_days_from_civil(end)) {
            lemma_within_before_the_anchor(rule, limit, anchor, after);
            if spec_days_from_civil(anchor) <= spec_days_from_civil(last) {
                match spec_series_after(rule, limit, anchor, anchor, last) {
                    Err(error) => {},
                    Ok(rest) => {},
                }
            }
        }
    }
}

/// A date that exists and lies between two readable dates is readable.
pub proof fn lemma_readable_between(low: CivilDate, date: CivilDate, high: CivilDate)
    requires
        readable_date(low),
        readable_date(high),
        is_valid_date(date),
        crate::civil::in_range(date),
        spec_days_from_civil(low) <= spec_days_from_civil(date) <= spec_days_from_civil(high),
    ensures
        readable_date(date),
{
    lemma_readable_days(low);
    lemma_readable_days(high);
    if -YEAR_LIMIT <= date.year <= YEAR_LIMIT {
        lemma_order_is_chronological(high, date);
        lemma_order_is_chronological(date, low);
    } else {
        lemma_far_years(date);
    }
}

/// A date that exists, in year 0 or later and no later than a readable date,
/// is readable.
pub proof fn lemma_readable_below(date: CivilDate, high: CivilDate)
    requires
        readable_date(high),
        is_valid_date(date),
        crate::civil::in_range(date),
        0 <= date.year,
        spec_days_from_civil(date) <= spec_days_from_civil(high),
    ensures
        readable_date(date),
{
    let first = CivilDate { year: 0, month: 1, day: 1 };
    lemma_readable_days(high);
    if date.year <= YEAR_LIMIT {
        lemma_order_is_chronological(date, first);
        lemma_readable_between(first, date, high);
    } else {
        lemma_far_years(date);
    }
}

/// A date more than a billion years from zero has a day number far outside
/// the readable years.
proof fn lemma_far_years(date: CivilDate)
    requires
        is_valid_date(date),
        crate::civil::in_range(date),
        !(-YEAR_LIMIT <= date.year <= YEAR_LIMIT),
    ensures
        date.year > 0 ==> spec_days_from_civil(date) > 2_932_896,
        date.year < 0 ==> spec_days_from_civil(date) < -719_528,
{
    let year = if date.month <= 2 {
        date.year - 1
    } else {
        date.year as int
    };
    let era = year / 400;
    let year_of_era = year - era * 400;
    let mp = (date.month + 9) % 12;
    assert(0 <= crate::civil::month_start(mp as int) <= 400);
    assert(0 <= crate::civil::years_before(year_of_era) <= 146_097);
    if year > 0 {
        assert(era >= 2_000_000);
        assert(era * 146_097 >= 2_000_000 * 146_097) by (nonlinear_arith)
            requires
                era >= 2_000_000,
        ;
    } else {
        assert(era <= -2_000_000);
        assert(era * 146_097 <= -2_000_000 * 146_097) by (nonlinear_arith)
            requires
                era <= -2_000_000,
        ;
    }
}

/// The series counted from `anchor`, the anchor itself first, up to and
/// including `last`: the grid a habit is laid over.
pub fn occurrences_through(rule: &RecurrenceRule, limit: Option<u32>, anchor: CivilDate, last: CivilDate) -> (answer: Result<Vec<CivilDate>, RecurrenceError>)
    requires
        readable_date(anchor),
        readable_date(last),
    ensures
        match spec_series_through(*rule, limit, anchor, last) {
            Err(error) => answer == Err::<Vec<CivilDate>, RecurrenceError>(error),
            Ok(dates) => answer matches Ok(found) && found@ == dates,
        },
        answer matches Ok(found) ==> found.len() <= 4_000_000,
{
    if let Err(error) = rule.validate_pattern() {
        return Err(RecurrenceError::UnusableRule(error));
    }
    proof {
        lemma_readable_days(anchor);
        lemma_readable_days(last);
    }
    let counts_lunar = rule.calendar == RecurrenceCalendar::Lunar && (rule.frequency
        == RecurrenceFrequency::Monthly || rule.frequency == RecurrenceFrequency::Yearly);
    if counts_lunar {
        let sky = Sky::new();
        if sky.from_civil(anchor).is_none() {
            return Err(RecurrenceError::LunarOutOfRange);
        }
    }
    let anchor_day = days_from_civil(anchor);
    let last_day = days_from_civil(last);
    if anchor_day > last_day {
        return Ok(Vec::new());
    }
    let until = match &rule.until {
        Some(text) => parse_date(text.as_str()),
        None => None,
    };
    if let Some(end) = until {
        proof {
            crate::civil::lemma_parsed_date_readable(vstd::utf8::encode_utf8(rule.until->0@));
            lemma_readable_days(end);
        }
        if anchor_day > days_from_civil(end) {
            return Ok(Vec::new());
        }
    }
    let mut dates: Vec<CivilDate> = Vec::new();
    dates.push(anchor);
    let mut after = anchor;
    proof {
        lemma_series_is_bounded(*rule, limit, anchor, anchor, last);
    }
    loop
        invariant
            dates.len() + spec_days_from_civil(last) - spec_days_from_civil(after) <= 4_000_000,
            readable_date(anchor),
            readable_date(last),
            readable_date(after),
            last_day == spec_days_from_civil(last),
            spec_days_from_civil(anchor) <= spec_days_from_civil(after) <= spec_days_from_civil(last),
            spec_series_through(*rule, limit, anchor, last) == continued(
                dates@,
                spec_series_after(*rule, limit, anchor, after, last),
            ),
        decreases spec_days_from_civil(last) - spec_days_from_civil(after),
    {
        match next_date_within(rule, limit, anchor, after) {
            Err(error) => return Err(error),
            Ok(None) => return Ok(dates),
            Ok(Some(date)) => {
                proof {
                    lemma_within_is_after_and_within_the_end(*rule, limit, anchor, after);
                }
                if days_from_civil(date) > last_day {
                    return Ok(dates);
                }
                proof {
                    lemma_readable_between(anchor, date, last);
                    let rest = spec_series_after(*rule, limit, anchor, date, last);
                    if let Ok(tail) = rest {
                        assert(dates@ + (seq![date] + tail) =~= dates@.push(date) + tail);
                    }
                }
                dates.push(date);
                after = date;
            },
        }
    }
}

/// A walk lists each date at most once, all after `after` and none past
/// `last`, so it lists no more dates than there are days between the two.
pub proof fn lemma_series_is_bounded(rule: RecurrenceRule, limit: Option<u32>, anchor: CivilDate, after: CivilDate, last: CivilDate)
    ensures
        spec_series_after(rule, limit, anchor, after, last) matches Ok(dates) ==> dates.len() <= (
        if spec_days_from_civil(last) > spec_days_from_civil(after) {
            spec_days_from_civil(last) - spec_days_from_civil(after)
        } else {
            0
        }),
    decreases spec_days_from_civil(last) - spec_days_from_civil(after),
{
    match spec_next_date_within(rule, limit, anchor, after) {
        Ok(Some(date)) => {
            lemma_within_is_after_and_within_the_end(rule, limit, anchor, after);
            if spec_days_from_civil(date) <= spec_days_from_civil(last) {
                lemma_series_is_bounded(rule, limit, anchor, date, last);
            }
        },
        _ => {},
    }
}
} // verus!
