//! Dates on the civil calendar, and the arithmetic every rule that counts days
//! needs.
//!
//! A civil date is a date on a wall calendar, which is exactly what a due date
//! and a repeat rule are stored as; nothing here reads a clock or a time zone.
//! The two conversions between a date and its day number are Howard Hinnant's
//! civil-calendar algorithms, and the leap rule lives in exactly one place:
//! [`month_length`], which the conversions are proved to agree with.

use vstd::prelude::*;
use vstd::string::StringSliceAdditionalSpecFns;

use crate::text::{
    all_digits, decimal, digits_value, lemma_decimal_len, lemma_encode_append, lemma_padded_reads_back,
    padded, padded_signed, parse_digits, push_char, push_padded, push_padded_signed, read_digits,
};
use vstd::utf8::encode_utf8;

verus! {

/// The furthest year, either side of zero, the arithmetic here answers for. A
/// day number this far out is hundreds of millions of years away, far beyond
/// anything a stored date or a repeat rule can reach, and keeping inside it is
/// what keeps every intermediate product inside an `i64`.
pub const YEAR_LIMIT: i64 = 1_000_000_000_000;

/// The furthest day number, either side of 1970-01-01, the arithmetic answers
/// for.
pub const DAY_LIMIT: i64 = 400_000_000_000_000;

/// The furthest year the conversions accept as input, which is wider than
/// [`YEAR_LIMIT`] so that every date a day number in range names converts
/// back.
pub const CONVERT_YEAR_LIMIT: i64 = 2_000_000_000_000;

/// A date on the proleptic Gregorian calendar.
///
/// The fields are compared year first, then month, then day, which is
/// chronological for dates that exist ([`lemma_order_is_chronological`]).
#[derive(Clone, Copy, Debug, PartialEq, Eq, Structural)]
pub struct CivilDate {
    pub year: i64,
    pub month: u32,
    pub day: u32,
}

pub open spec fn is_leap_year(year: int) -> bool {
    year % 4 == 0 && (year % 100 != 0 || year % 400 == 0)
}

/// How many days a month holds, leap years included.
pub open spec fn month_length(year: int, month: int) -> int {
    if month == 2 {
        if is_leap_year(year) {
            29
        } else {
            28
        }
    } else if month == 4 || month == 6 || month == 9 || month == 11 {
        30
    } else {
        31
    }
}

/// Whether a date names a day that exists.
pub open spec fn is_valid_date(date: CivilDate) -> bool {
    &&& 1 <= date.month <= 12
    &&& 1 <= date.day <= month_length(date.year as int, date.month as int)
}

/// Whether a date is one the day-number arithmetic answers for. The month and
/// day need not exist: an unreadable date is converted and found out by the
/// round trip, exactly as [`parse_date`] does.
pub open spec fn in_range(date: CivilDate) -> bool {
    &&& -CONVERT_YEAR_LIMIT <= date.year <= CONVERT_YEAR_LIMIT
    &&& date.month <= 1000
    &&& date.day <= 1000
}

pub open spec fn day_in_range(days: int) -> bool {
    -DAY_LIMIT <= days <= DAY_LIMIT
}

/// Days before year `k` of a 400-year era that starts in March.
pub open spec fn years_before(k: int) -> int {
    365 * k + k / 4 - k / 100
}

/// The year of a 400-year era a day of that era falls in.
pub open spec fn year_of_era(doe: int) -> int {
    (doe - doe / 1460 + doe / 36524 - doe / 146096) / 365
}

/// Days of a March-based year before its month `mp` (0 is March).
pub open spec fn month_start(mp: int) -> int {
    (153 * mp + 2) / 5
}

/// Days since 1970-01-01 (Hinnant's `days_from_civil`).
pub open spec fn spec_days_from_civil(date: CivilDate) -> int {
    let year = if date.month <= 2 {
        date.year - 1
    } else {
        date.year as int
    };
    let era = year / 400;
    let year_of_era = year - era * 400;
    let mp = (date.month + 9) % 12;
    let day_of_year = month_start(mp) + date.day - 1;
    era * 146_097 + years_before(year_of_era) + day_of_year - 719_468
}

/// The date a day number names (Hinnant's `civil_from_days`).
pub open spec fn spec_civil_from_days(days: int) -> CivilDate {
    let shifted = days + 719_468;
    let era = shifted / 146_097;
    let doe = shifted - era * 146_097;
    let yoe = year_of_era(doe);
    let year = yoe + era * 400;
    let doy = doe - years_before(yoe);
    let mp = (5 * doy + 2) / 153;
    let day = doy - month_start(mp) + 1;
    let month = if mp < 10 {
        mp + 3
    } else {
        mp - 9
    };
    CivilDate {
        year: (if month <= 2 {
            year + 1
        } else {
            year
        }) as i64,
        month: month as u32,
        day: day as u32,
    }
}

/// Monday-based day of the week, Monday 0.
pub open spec fn spec_weekday_index(date: CivilDate) -> int {
    (spec_days_from_civil(date) + 3) % 7
}

/// Chronological order on the fields, year first.
pub open spec fn date_lt(a: CivilDate, b: CivilDate) -> bool {
    ||| a.year < b.year
    ||| a.year == b.year && a.month < b.month
    ||| a.year == b.year && a.month == b.month && a.day < b.day
}

// ---------------------------------------------------------------------------
// The shape of an era, which every proof below stands on.

proof fn lemma_year_of_era(doe: int)
    requires
        0 <= doe <= 146_096,
    ensures
        0 <= year_of_era(doe) <= 399,
        years_before(year_of_era(doe)) <= doe,
        year_of_era(doe) < 399 ==> doe < years_before(year_of_era(doe) + 1),
{
}

/// The length of a March-based year of the era: 366 exactly when the February
/// it ends with is a leap one.
proof fn lemma_era_year_length(k: int)
    requires
        0 <= k < 399,
    ensures
        years_before(k + 1) - years_before(k) == (if (k + 1) % 4 == 0 && (k + 1) % 100 != 0 {
            366int
        } else {
            365int
        }),
{
}

/// Days of an era before year `k` recover `k`.
proof fn lemma_year_of_era_inverse(k: int, doy: int)
    requires
        0 <= k <= 399,
        0 <= doy,
        k < 399 ==> years_before(k) + doy < years_before(k + 1),
        k == 399 ==> doy <= 365,
    ensures
        year_of_era(years_before(k) + doy) == k,
{
    let doe = years_before(k) + doy;
    assert(0 <= doe <= 146_096);
    lemma_year_of_era(doe);
    let j = year_of_era(doe);
    if j < k {
        assert(years_before(j + 1) <= years_before(k)) by {
            lemma_years_before_monotone(j + 1, k);
        }
    } else if j > k {
        assert(years_before(k + 1) <= years_before(j)) by {
            lemma_years_before_monotone(k + 1, j);
        }
    }
}

proof fn lemma_years_before_monotone(a: int, b: int)
    requires
        0 <= a <= b,
    ensures
        years_before(a) <= years_before(b),
{
}

/// The months of a March-based year: where each begins, and that a day of the
/// year falls in exactly one of them.
proof fn lemma_month_of_day(doy: int)
    requires
        0 <= doy <= 365,
    ensures
        0 <= (5 * doy + 2) / 153 <= 11,
        month_start((5 * doy + 2) / 153) <= doy,
        (5 * doy + 2) / 153 < 11 ==> doy < month_start((5 * doy + 2) / 153 + 1),
{
}

proof fn lemma_month_of_day_inverse(mp: int, day: int)
    requires
        0 <= mp <= 11,
        1 <= day,
        mp < 11 ==> month_start(mp) + day - 1 < month_start(mp + 1),
        mp == 11 ==> day <= 29,
    ensures
        (5 * (month_start(mp) + day - 1) + 2) / 153 == mp,
{
    let doy = month_start(mp) + day - 1;
    lemma_month_of_day(doy);
    let j = (5 * doy + 2) / 153;
    if j < mp {
        assert(month_start(j + 1) <= month_start(mp));
    } else if j > mp {
        assert(month_start(mp + 1) <= month_start(j));
    }
}

/// Within one era: the year, month and day a day of the era falls on exist.
proof fn lemma_era_day_valid(doe: int)
    requires
        0 <= doe <= 146_096,
    ensures
        ({
            let yoe = year_of_era(doe);
            let doy = doe - years_before(yoe);
            let mp = (5 * doy + 2) / 153;
            let day = doy - month_start(mp) + 1;
            &&& 0 <= yoe <= 399
            &&& 0 <= doy <= 365
            &&& 0 <= mp <= 11
            &&& 1 <= day
            &&& mp < 11 ==> day <= month_length(0, if mp < 10 { mp + 3 } else { mp - 9 })
            &&& mp == 11 ==> day <= (if (yoe + 1) % 4 == 0 && ((yoe + 1) % 100 != 0 || yoe == 399) { 29int } else { 28int })
        }),
{
    lemma_year_of_era(doe);
    let yoe = year_of_era(doe);
    let doy = doe - years_before(yoe);
    if yoe < 399 {
        lemma_era_year_length(yoe);
    }
    lemma_month_of_day(doy);
}

/// Every day number names a date that exists.
#[verifier::rlimit(100)]
pub proof fn lemma_civil_from_days_valid(days: int)
    requires
        day_in_range(days),
    ensures
        is_valid_date(spec_civil_from_days(days)),
        in_range(spec_civil_from_days(days)),
        -1_100_000_000_000 <= spec_civil_from_days(days).year <= 1_100_000_000_000,
{
    let shifted = days + 719_468;
    let era = shifted / 146_097;
    let doe = shifted - era * 146_097;
    lemma_era_day_valid(doe);
    let yoe = year_of_era(doe);
    let doy = doe - years_before(yoe);
    let mp = (5 * doy + 2) / 153;
    let year = yoe + era * 400;
    assert(-3_000_000_000 <= era <= 3_000_000_000);
    if mp == 11 {
        // February: 29 days exactly when the year it falls in is a leap one.
        let feb_year = year + 1;
        assert((feb_year % 4 == 0) == ((yoe + 1) % 4 == 0));
        assert((feb_year % 100 == 0) == ((yoe + 1) % 100 == 0));
        assert((feb_year % 400 == 0) == ((yoe + 1) % 400 == 0));
    }
}

/// Converting a day number to a date and back gives the day number.
pub proof fn lemma_days_of_civil(days: int)
    requires
        day_in_range(days),
    ensures
        spec_days_from_civil(spec_civil_from_days(days)) == days,
{
    lemma_civil_from_days_valid(days);
    let shifted = days + 719_468;
    let era = shifted / 146_097;
    let doe = shifted - era * 146_097;
    lemma_year_of_era(doe);
    let yoe = year_of_era(doe);
    let doy = doe - years_before(yoe);
    if yoe < 399 {
        lemma_era_year_length(yoe);
    }
    lemma_month_of_day(doy);
    let date = spec_civil_from_days(days);
    let year = if date.month <= 2 {
        date.year - 1
    } else {
        date.year as int
    };
    assert(year == yoe + era * 400);
    assert(year / 400 == era);
}

/// The day number put together from its parts names those parts again.
proof fn lemma_civil_of_parts(era: int, yoe: int, mp: int, day: int)
    requires
        -3_000_000_000 <= era <= 3_000_000_000,
        0 <= yoe <= 399,
        0 <= mp <= 11,
        1 <= day,
        mp < 11 ==> month_start(mp) + day - 1 < month_start(mp + 1),
        mp == 11 ==> day <= 29,
        yoe < 399 ==> years_before(yoe) + month_start(mp) + day - 1 < years_before(yoe + 1),
    ensures
        ({
            let civil = spec_civil_from_days(
                era * 146_097 + years_before(yoe) + month_start(mp) + day - 1 - 719_468,
            );
            let month = if mp < 10 { mp + 3 } else { mp - 9 };
            &&& civil.month == month
            &&& civil.day == day
            &&& civil.year == (if month <= 2 { yoe + era * 400 + 1 } else { yoe + era * 400 })
        }),
{
    let doy = month_start(mp) + day - 1;
    lemma_month_of_day_inverse(mp, day);
    assert(0 <= doy <= 365);
    lemma_year_of_era_inverse(yoe, doy);
    let doe = years_before(yoe) + doy;
    assert(0 <= doe <= 146_096);
    assert((era * 146_097 + doe) / 146_097 == era);
}

/// The parts a date that exists breaks into meet what [`lemma_civil_of_parts`]
/// asks of them.
proof fn lemma_parts_of_valid_date(date: CivilDate)
    requires
        is_valid_date(date),
        -YEAR_LIMIT <= date.year <= YEAR_LIMIT,
    ensures
        ({
            let year = if date.month <= 2 { date.year - 1 } else { date.year as int };
            let era = year / 400;
            let yoe = year - era * 400;
            let mp = ((date.month + 9) % 12) as int;
            let day = date.day as int;
            &&& -3_000_000_000 <= era <= 3_000_000_000
            &&& 0 <= yoe <= 399
            &&& 0 <= mp <= 11
            &&& 1 <= day
            &&& mp < 11 ==> month_start(mp) + day - 1 < month_start(mp + 1)
            &&& mp == 11 ==> day <= 29
            &&& yoe < 399 ==> years_before(yoe) + month_start(mp) + day - 1 < years_before(yoe + 1)
            &&& (if mp < 10 { mp + 3 } else { mp - 9 }) == date.month
        }),
{
    let year = if date.month <= 2 {
        date.year - 1
    } else {
        date.year as int
    };
    let era = year / 400;
    let yoe = year - era * 400;
    let mp = ((date.month + 9) % 12) as int;
    let day = date.day as int;
    if mp == 11 {
        assert(date.month == 2);
        assert((date.year % 4 == 0) == ((yoe + 1) % 4 == 0));
        assert((date.year % 100 == 0) == ((yoe + 1) % 100 == 0));
        assert((date.year % 400 == 0) == ((yoe + 1) % 400 == 0));
    }
    if yoe < 399 {
        lemma_era_year_length(yoe);
    }
}

/// Converting a date that exists to its day number and back gives the date.
pub proof fn lemma_civil_of_days(date: CivilDate)
    requires
        is_valid_date(date),
        -YEAR_LIMIT <= date.year <= YEAR_LIMIT,
    ensures
        day_in_range(spec_days_from_civil(date)),
        spec_civil_from_days(spec_days_from_civil(date)) == date,
{
    lemma_parts_of_valid_date(date);
    let year = if date.month <= 2 {
        date.year - 1
    } else {
        date.year as int
    };
    let era = year / 400;
    let yoe = year - era * 400;
    let mp = ((date.month + 9) % 12) as int;
    lemma_civil_of_parts(era, yoe, mp, date.day as int);
}

/// A date converts back to itself exactly when it exists: the check
/// [`parse_date`] relies on to refuse 31 February without a table.
pub proof fn lemma_round_trip_iff_valid(date: CivilDate)
    requires
        in_range(date),
        -YEAR_LIMIT <= date.year <= YEAR_LIMIT,
    ensures
        (spec_civil_from_days(spec_days_from_civil(date)) == date) <==> is_valid_date(date),
{
    if is_valid_date(date) {
        lemma_civil_of_days(date);
    } else {
        let days = spec_days_from_civil(date);
        assert(day_in_range(days));
        lemma_civil_from_days_valid(days);
    }
}


// ---------------------------------------------------------------------------
// The executable conversions.

/// Days since 1970-01-01, by Howard Hinnant's civil-calendar algorithm.
pub fn days_from_civil(date: CivilDate) -> (days: i64)
    requires
        in_range(date),
    ensures
        days == spec_days_from_civil(date),
{
    let year = if date.month <= 2 {
        date.year - 1
    } else {
        date.year
    };
    let era = if year >= 0 {
        year
    } else {
        year - 399
    } / 400;
    assert(era == year / 400);
    let year_of_era = year - era * 400;
    let month_position = ((date.month + 9) % 12) as i64;
    let day_of_year = (153 * month_position + 2) / 5 + date.day as i64 - 1;
    let day_of_era = year_of_era * 365 + year_of_era / 4 - year_of_era / 100 + day_of_year;
    era * 146_097 + day_of_era - 719_468
}

/// Inverse of [`days_from_civil`].
pub fn civil_from_days(days: i64) -> (date: CivilDate)
    requires
        day_in_range(days as int),
    ensures
        date == spec_civil_from_days(days as int),
        is_valid_date(date),
        in_range(date),
{
    proof {
        lemma_civil_from_days_valid(days as int);
    }
    let shifted = days + 719_468;
    let era = if shifted >= 0 {
        shifted
    } else {
        shifted - 146_096
    } / 146_097;
    assert(era == shifted / 146_097);
    let day_of_era = shifted - era * 146_097;
    proof {
        lemma_year_of_era(day_of_era as int);
    }
    let year_of_era = (day_of_era - day_of_era / 1_460 + day_of_era / 36_524 - day_of_era
        / 146_096) / 365;
    let year = year_of_era + era * 400;
    let day_of_year = day_of_era - (365 * year_of_era + year_of_era / 4 - year_of_era / 100);
    proof {
        if year_of_era < 399 {
            lemma_era_year_length(year_of_era as int);
        }
        lemma_month_of_day(day_of_year as int);
    }
    let month_position = (5 * day_of_year + 2) / 153;
    let day = (day_of_year - (153 * month_position + 2) / 5 + 1) as u32;
    let month = (if month_position < 10 {
        month_position + 3
    } else {
        month_position - 9
    }) as u32;

    CivilDate {
        year: if month <= 2 {
            year + 1
        } else {
            year
        },
        month,
        day,
    }
}

/// The date `days` after `date` (before it, for a negative count).
pub fn add_days(date: CivilDate, days: i64) -> (moved: CivilDate)
    requires
        in_range(date),
        day_in_range(spec_days_from_civil(date) + days),
    ensures
        moved == spec_civil_from_days(spec_days_from_civil(date) + days),
        is_valid_date(moved),
        in_range(moved),
{
    civil_from_days(days_from_civil(date) + days)
}

/// The position `months` after `(year, month)`, carrying into the year.
pub open spec fn spec_add_months(year: int, month: int, months: int) -> (int, int) {
    let position = year * 12 + month - 1 + months;
    (position / 12, position % 12 + 1)
}

/// The month `months` after `(year, month)`, carrying into the year.
///
/// A month is counted as a position rather than added to a date because the
/// day does not survive the step: the month after 31 January has no 31st, and
/// it is the caller that decides whether that means "the 28th" or "not this
/// month".
pub fn add_months(year: i64, month: u32, months: i64) -> (moved: (i64, u32))
    requires
        -YEAR_LIMIT <= year <= YEAR_LIMIT,
        1 <= month <= 12,
        -12 * YEAR_LIMIT <= months <= 12 * YEAR_LIMIT,
    ensures
        moved.0 == spec_add_months(year as int, month as int, months as int).0,
        moved.1 == spec_add_months(year as int, month as int, months as int).1,
        1 <= moved.1 <= 12,
{
    let position = year * 12 + month as i64 - 1 + months;
    let quotient = if position >= 0 {
        position / 12
    } else {
        (position - 11) / 12
    };
    assert(quotient == position / 12);
    let remainder = position - quotient * 12;
    (quotient, (remainder + 1) as u32)
}

/// How many days a month holds, leap years included.
///
/// Taken as the distance to the first of the next month, so the leap rule the
/// answer follows is the one the day-number conversion follows.
pub fn days_in_month(year: i64, month: u32) -> (length: u32)
    requires
        -YEAR_LIMIT <= year <= YEAR_LIMIT,
        1 <= month <= 12,
    ensures
        length == month_length(year as int, month as int),
{
    let (next_year, next_month) = add_months(year, month, 1);
    let first = CivilDate { year, month, day: 1 };
    let next_first = CivilDate { year: next_year, month: next_month, day: 1 };
    proof {
        lemma_month_length_by_days(year as int, month as int);
    }
    (days_from_civil(next_first) - days_from_civil(first)) as u32
}

proof fn lemma_month_length_by_days(year: int, month: int)
    requires
        -YEAR_LIMIT <= year <= YEAR_LIMIT,
        1 <= month <= 12,
    ensures
        ({
            let next = spec_add_months(year, month, 1);
            spec_days_from_civil(CivilDate { year: next.0 as i64, month: next.1 as u32, day: 1 })
                - spec_days_from_civil(CivilDate { year: year as i64, month: month as u32, day: 1 })
                == month_length(year, month)
        }),
{
    let first = CivilDate { year: year as i64, month: month as u32, day: 1 };
    let last = CivilDate { year: year as i64, month: month as u32, day: month_length(year, month) as u32 };
    let next = spec_add_months(year, month, 1);
    let next_first = CivilDate { year: next.0 as i64, month: next.1 as u32, day: 1 };
    // The last day of the month and the first of the next are neighbours, and
    // the last is `length - 1` days after the first.
    lemma_next_day(last);
    lemma_same_month_offset(first, month_length(year, month) - 1);
}

/// The day after the last of a month is the first of the next one.
proof fn lemma_next_day(date: CivilDate)
    requires
        is_valid_date(date),
        -YEAR_LIMIT <= date.year <= YEAR_LIMIT,
        date.day == month_length(date.year as int, date.month as int),
    ensures
        ({
            let next = spec_add_months(date.year as int, date.month as int, 1);
            spec_days_from_civil(date) + 1 == spec_days_from_civil(
                CivilDate { year: next.0 as i64, month: next.1 as u32, day: 1 },
            )
        }),
{
    let year = if date.month <= 2 {
        date.year - 1
    } else {
        date.year as int
    };
    let era = year / 400;
    let yoe = year - era * 400;
    if date.month == 2 {
        assert((date.year % 4 == 0) == ((yoe + 1) % 4 == 0));
        assert((date.year % 100 == 0) == ((yoe + 1) % 100 == 0));
        assert((date.year % 400 == 0) == ((yoe + 1) % 400 == 0));
        if yoe < 399 {
            lemma_era_year_length(yoe);
        }
    }
}

/// Within a month, the day number grows one a day.
proof fn lemma_same_month_offset(first: CivilDate, k: int)
    requires
        first.day == 1,
        1 <= first.month <= 12,
        -YEAR_LIMIT <= first.year <= YEAR_LIMIT,
        0 <= k < 1000,
    ensures
        spec_days_from_civil(CivilDate { day: (1 + k) as u32, ..first }) == spec_days_from_civil(first)
            + k,
{
}

/// Which day of the week a date falls on, counting Monday as 0.
///
/// 1970-01-01 is day 0 and was a Thursday, three days into a week that begins
/// on Monday.
pub fn weekday_index(date: CivilDate) -> (index: i64)
    requires
        in_range(date),
    ensures
        index == spec_weekday_index(date),
        0 <= index < 7,
{
    let shifted = days_from_civil(date) + 3;
    modulo_seven(shifted)
}

/// `value % 7` read as a day of the week, never negative.
fn modulo_seven(value: i64) -> (r: i64)
    ensures
        r == value % 7,
        0 <= r < 7,
{
    let remainder = value % 7;
    if remainder < 0 {
        remainder + 7
    } else {
        remainder
    }
}

/// Whether `a` comes before `b`, field by field.
pub fn date_before(a: CivilDate, b: CivilDate) -> (r: bool)
    ensures
        r == date_lt(a, b),
{
    a.year < b.year || (a.year == b.year && (a.month < b.month || (a.month == b.month && a.day
        < b.day)))
}

/// For dates that exist, the field order is the day-number order.
pub proof fn lemma_order_is_chronological(a: CivilDate, b: CivilDate)
    requires
        is_valid_date(a),
        is_valid_date(b),
        -YEAR_LIMIT <= a.year <= YEAR_LIMIT,
        -YEAR_LIMIT <= b.year <= YEAR_LIMIT,
    ensures
        date_lt(a, b) <==> spec_days_from_civil(a) < spec_days_from_civil(b),
{
    if date_lt(a, b) {
        lemma_days_monotone(a, b);
    } else if date_lt(b, a) {
        lemma_days_monotone(b, a);
    } else {
        assert(a == b);
    }
}

/// An earlier date has a smaller day number.
proof fn lemma_days_monotone(a: CivilDate, b: CivilDate)
    requires
        is_valid_date(a),
        is_valid_date(b),
        -YEAR_LIMIT <= a.year <= YEAR_LIMIT,
        -YEAR_LIMIT <= b.year <= YEAR_LIMIT,
        date_lt(a, b),
    ensures
        spec_days_from_civil(a) < spec_days_from_civil(b),
{
    // The last day of `a`'s year is before the first of any later year, and
    // within a year each month starts after the previous one ends.
    let end = CivilDate { year: a.year, month: 12, day: 31 };
    lemma_within_year(a, end);
    if a.year < b.year {
        let start = CivilDate { year: b.year, month: 1, day: 1 };
        lemma_within_year(start, b);
        lemma_year_starts_increase(a.year as int, b.year as int);
    } else {
        lemma_within_year_strict(a, b);
    }
}

pub open spec fn year_start(year: int) -> int {
    spec_days_from_civil(CivilDate { year: year as i64, month: 1, day: 1 })
}

/// Later years start later, by at least a year's days.
proof fn lemma_year_starts_increase(a: int, b: int)
    requires
        -YEAR_LIMIT <= a < b <= YEAR_LIMIT,
    ensures
        spec_days_from_civil(CivilDate { year: a as i64, month: 12, day: 31 }) < year_start(b),
    decreases b - a,
{
    let end_a = CivilDate { year: a as i64, month: 12, day: 31 };
    lemma_next_day(end_a);
    if a + 1 < b {
        lemma_year_starts_increase(a + 1, b);
        let end_next = CivilDate { year: (a + 1) as i64, month: 12, day: 31 };
        lemma_within_year(CivilDate { year: (a + 1) as i64, month: 1, day: 1 }, end_next);
    }
}

/// Within one year, a date no later in the field order is no later in days.
proof fn lemma_within_year(a: CivilDate, b: CivilDate)
    requires
        is_valid_date(a),
        is_valid_date(b),
        a.year == b.year,
        -YEAR_LIMIT <= a.year <= YEAR_LIMIT,
        !date_lt(b, a),
    ensures
        spec_days_from_civil(a) <= spec_days_from_civil(b),
{
    if date_lt(a, b) {
        lemma_within_year_strict(a, b);
    }
}

/// Day number of 1 March of year `y`, give or take the fixed epoch offset.
spec fn march_base(y: int) -> int {
    (y / 400) * 146_097 + years_before(y - (y / 400) * 400)
}

/// A March-based year is 366 days long exactly when the February it ends with
/// is a leap one.
proof fn lemma_march_year_step(y: int)
    ensures
        march_base(y + 1) - march_base(y) == (if is_leap_year(y + 1) { 366int } else { 365int }),
{
    let era = y / 400;
    let yoe = y - era * 400;
    assert(0 <= yoe < 400);
    if yoe < 399 {
        lemma_march_year_step_inside(y, era, yoe);
    } else {
        lemma_march_year_step_across(y, era);
    }
}

proof fn lemma_march_year_step_inside(y: int, era: int, yoe: int)
    requires
        era == y / 400,
        yoe == y - era * 400,
        0 <= yoe < 399,
    ensures
        march_base(y + 1) - march_base(y) == (if is_leap_year(y + 1) { 366int } else { 365int }),
{
    lemma_era_year_length(yoe);
    assert((y + 1) / 400 == era);
    assert((y + 1) - era * 400 == yoe + 1);
    assert(((y + 1) % 4 == 0) == ((yoe + 1) % 4 == 0));
    assert(((y + 1) % 100 == 0) == ((yoe + 1) % 100 == 0));
    assert((y + 1) % 400 != 0);
}

proof fn lemma_march_year_step_across(y: int, era: int)
    requires
        era == y / 400,
        y - era * 400 == 399,
    ensures
        march_base(y + 1) - march_base(y) == (if is_leap_year(y + 1) { 366int } else { 365int }),
{
    assert((y + 1) / 400 == era + 1);
    assert((y + 1) - (era + 1) * 400 == 0);
    assert((y + 1) % 400 == 0);
    assert(years_before(399) == 145_731);
}

/// A date that exists sits inside its March-based year.
proof fn lemma_day_of_march_year(date: CivilDate)
    requires
        is_valid_date(date),
        -YEAR_LIMIT <= date.year <= YEAR_LIMIT,
    ensures
        ({
            let y = if date.month <= 2 { date.year - 1 } else { date.year as int };
            let doy = month_start(((date.month + 9) % 12) as int) + date.day - 1;
            &&& spec_days_from_civil(date) == march_base(y) + doy - 719_468
            &&& 0 <= doy
            &&& march_base(y) + doy < march_base(y + 1)
        }),
{
    lemma_parts_of_valid_date(date);
    let y = if date.month <= 2 {
        date.year - 1
    } else {
        date.year as int
    };
    lemma_march_year_step(y);
    let mp = ((date.month + 9) % 12) as int;
    if mp == 11 {
        assert(date.year == y + 1);
    }
}

proof fn lemma_within_year_strict(a: CivilDate, b: CivilDate)
    requires
        is_valid_date(a),
        is_valid_date(b),
        a.year == b.year,
        -YEAR_LIMIT <= a.year <= YEAR_LIMIT,
        date_lt(a, b),
    ensures
        spec_days_from_civil(a) < spec_days_from_civil(b),
{
    lemma_day_of_march_year(a);
    lemma_day_of_march_year(b);
    lemma_parts_of_valid_date(a);
    lemma_parts_of_valid_date(b);
    let mpa = ((a.month + 9) % 12) as int;
    let mpb = ((b.month + 9) % 12) as int;
    if a.month == b.month {
    } else if (a.month <= 2) == (b.month <= 2) {
        assert(mpa < mpb);
        assert(month_start(mpa + 1) <= month_start(mpb));
    } else {
        assert(a.month <= 2 && b.month > 2);
    }
}

// ---------------------------------------------------------------------------
// Reading and writing dates.

/// `YYYY-MM-DD` at the start of a stored value, read as a date that exists.
///
/// A value that does not start with four digits, a dash, two digits, a dash
/// and two digits is no date, and neither is one naming a day the calendar
/// does not have. Anything may follow the tenth byte.
pub open spec fn spec_parse_date(bytes: Seq<u8>) -> Option<CivilDate> {
    if bytes.len() >= 10 && bytes[4] == 45 && bytes[7] == 45 && parse_digits(bytes.subrange(0, 4))
        is Some && parse_digits(bytes.subrange(5, 7)) is Some && parse_digits(bytes.subrange(8, 10))
        is Some {
        let date = CivilDate {
            year: digits_value(bytes.subrange(0, 4)) as i64,
            month: digits_value(bytes.subrange(5, 7)) as u32,
            day: digits_value(bytes.subrange(8, 10)) as u32,
        };
        if is_valid_date(date) {
            Some(date)
        } else {
            None
        }
    } else {
        None
    }
}

/// Parses `YYYY-MM-DD`, the shape a due date is stored in.
///
/// Validity is checked by converting to a day number and back: a date that
/// survives the round trip is one that exists, which rules out 31 February
/// without a table of month lengths ([`lemma_round_trip_iff_valid`]).
pub fn parse_date(value: &str) -> (date: Option<CivilDate>)
    ensures
        date == spec_parse_date(value.spec_bytes()),
{
    parse_date_bytes(value.as_bytes())
}

/// [`parse_date`] on the bytes of a value.
pub fn parse_date_bytes(bytes: &[u8]) -> (date: Option<CivilDate>)
    ensures
        date == spec_parse_date(bytes@),
{
    if bytes.len() < 10 || bytes[4] != 45 || bytes[7] != 45 {
        return None;
    }
    let year = match read_digits(bytes, 0, 4) {
        Some(year) => year,
        None => return None,
    };
    let month = match read_digits(bytes, 5, 7) {
        Some(month) => month,
        None => return None,
    };
    let day = match read_digits(bytes, 8, 10) {
        Some(day) => day,
        None => return None,
    };
    proof {
        crate::text::lemma_digits_value_bound(bytes@.subrange(0, 4));
        crate::text::lemma_digits_value_bound(bytes@.subrange(5, 7));
        crate::text::lemma_digits_value_bound(bytes@.subrange(8, 10));
        reveal_with_fuel(crate::text::pow10, 5);
    }
    let date = CivilDate { year: year as i64, month, day };
    proof {
        lemma_round_trip_iff_valid(date);
    }
    if civil_from_days(days_from_civil(date)) == date {
        Some(date)
    } else {
        None
    }
}

/// What [`format_iso_date`] writes: `{:04}-{:02}-{:02}`.
pub open spec fn spec_format_iso_date(date: CivilDate) -> Seq<char> {
    padded_signed(date.year as int, 4) + seq!['-'] + padded(date.month as nat, 2) + seq!['-']
        + padded(date.day as nat, 2)
}

/// A date [`format_iso_date`] writes is read back by [`parse_date`] as the same
/// date, for every date that exists in the years 0 to 9999.
pub proof fn lemma_date_text_round_trip(date: CivilDate)
    requires
        is_valid_date(date),
        0 <= date.year <= 9999,
    ensures
        spec_parse_date(encode_utf8(spec_format_iso_date(date))) == Some(date),
{
    let year = date.year as nat;
    let month = date.month as nat;
    let day = date.day as nat;
    lemma_decimal_len(year);
    lemma_decimal_len(month);
    lemma_decimal_len(day);
    lemma_padded_reads_back(year, 4);
    lemma_padded_reads_back(month, 2);
    lemma_padded_reads_back(day, 2);
    let y = encode_utf8(padded(year, 4));
    let m = encode_utf8(padded(month, 2));
    let d = encode_utf8(padded(day, 2));
    let dash = encode_utf8(seq!['-']);
    crate::text::lemma_ascii_encodes(seq!['-']);
    assert(dash =~= seq![45u8]);
    assert(padded_signed(date.year as int, 4) == padded(year, 4));
    let text = spec_format_iso_date(date);
    assert(text == padded(year, 4) + seq!['-'] + padded(month, 2) + seq!['-'] + padded(day, 2));
    lemma_encode_append(padded(year, 4), seq!['-']);
    lemma_encode_append(padded(year, 4) + seq!['-'], padded(month, 2));
    lemma_encode_append(padded(year, 4) + seq!['-'] + padded(month, 2), seq!['-']);
    lemma_encode_append(padded(year, 4) + seq!['-'] + padded(month, 2) + seq!['-'], padded(day, 2));
    let bytes = encode_utf8(text);
    assert(bytes == y + dash + m + dash + d);
    assert(bytes.len() == 10);
    assert(bytes.subrange(0, 4) =~= y);
    assert(bytes.subrange(5, 7) =~= m);
    assert(bytes.subrange(8, 10) =~= d);
    assert(bytes[4] == 45);
    assert(bytes[7] == 45);
}

/// Writes `YYYY-MM-DD`, the shape the contract stores a date in — the inverse
/// of [`parse_date`] for every date this crate produces in years 0 to 9999.
pub fn format_iso_date(date: CivilDate) -> (text: String)
    ensures
        text@ == spec_format_iso_date(date),
{
    let mut text = String::new();
    push_padded_signed(&mut text, date.year, 4);
    push_char(&mut text, '-');
    push_padded(&mut text, date.month as u64, 2);
    push_char(&mut text, '-');
    push_padded(&mut text, date.day as u64, 2);
    text
}


/// A date read from text names a day that exists, in years 0 to 9999.
pub proof fn lemma_parsed_date_readable(bytes: Seq<u8>)
    requires
        spec_parse_date(bytes) is Some,
    ensures
        is_valid_date(spec_parse_date(bytes)->0),
        0 <= spec_parse_date(bytes)->0.year <= 9999,
{
    crate::text::lemma_digits_value_bound(bytes.subrange(0, 4));
    reveal_with_fuel(crate::text::pow10, 5);
}
} // verus!
