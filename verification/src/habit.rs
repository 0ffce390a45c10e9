//! Habit progress: how long a daily or weekly recurring task has been kept up,
//! and which recent days it could still be checked in on.
//!
//! The schedule is read only through [`crate::recurrence`], so there is one
//! understanding of when a habit is due; this module lays the checked-in dates
//! over that schedule and never re-derives it. No clock is read: the streak and
//! the make-up days follow from the task's current due date (its next,
//! not-yet-past occurrence) and the recorded check-ins alone, so the same inputs
//! give the same answer on every device.
//!
//! A habit's single row advances on each check-in rather than leaving a
//! completed sibling behind, so the streak is never a stored counter: it is
//! counted afresh from the check-ins every time it is asked for.

use vstd::prelude::*;

use crate::civil::{
    add_days, days_from_civil, format_iso_date, lemma_days_of_civil, parse_date,
    spec_civil_from_days, spec_days_from_civil, spec_format_iso_date, spec_parse_date, CivilDate,
};
use crate::contracts::{RecurrenceFrequency, RecurrenceRule};
use crate::recurrence::{
    lemma_readable_between, lemma_readable_days_public, occurrences_through, readable_date,
    spec_series_through, RecurrenceError,
};
use crate::text::{contains_id, ids_view};
use vstd::string::StringSliceAdditionalSpecFns;

verus! {

/// How many recent make-up days are offered at once: the days just missed, a
/// nudge back onto the streak rather than a calendar to fill in.
pub const MAKEUP_LIMIT: usize = 3;

/// A habit's streak and the recent days it could still be checked in on.
#[derive(Clone, Debug, Default, PartialEq, Eq)]
pub struct HabitProgress {
    /// Scheduled days checked in a row, counting back from the last one that
    /// fell due. The current, not-yet-past occurrence is never counted, so
    /// leaving today unchecked is not yet a break.
    pub streak: u32,
    /// Past scheduled dates in the recent window not yet checked in, most
    /// recent first, at most [`MAKEUP_LIMIT`].
    pub makeup: Vec<String>,
}

/// How far back the make-up window reaches, in days: a whole number of the
/// rule's own periods, eight for a daily rule and four weeks for a weekly one.
/// Any other frequency is not a habit.
pub open spec fn spec_window_days(rule: RecurrenceRule) -> Option<int> {
    match rule.frequency {
        RecurrenceFrequency::Daily => Some(8 * rule.interval),
        RecurrenceFrequency::Weekly => Some(28 * rule.interval),
        _ => None,
    }
}

/// The earliest check-in that reads as a date; one that does not is skipped.
pub open spec fn spec_earliest(check_ins: Seq<Seq<char>>) -> Option<CivilDate>
    decreases check_ins.len(),
{
    if check_ins.len() == 0 {
        None
    } else {
        let earlier = spec_earliest(check_ins.drop_last());
        match spec_parse_date(vstd::utf8::encode_utf8(check_ins.last())) {
            None => earlier,
            Some(date) => match earlier {
                Some(found) => if spec_days_from_civil(found) <= spec_days_from_civil(date) {
                    Some(found)
                } else {
                    Some(date)
                },
                None => Some(date),
            },
        }
    }
}

/// The date a check-in reads as, if it reads as one.
pub open spec fn check_in_date(text: Seq<char>) -> Option<CivilDate> {
    spec_parse_date(vstd::utf8::encode_utf8(text))
}

/// The streak's series starts from the earliest check-in in calendar order,
/// whatever order the check-ins are listed in: the start is one of the
/// check-ins that read as dates, none of them is earlier, and there is no
/// start exactly when no check-in reads as a date.
pub proof fn lemma_the_series_starts_at_the_earliest_check_in(check_ins: Seq<Seq<char>>)
    ensures
        spec_earliest(check_ins) is None <==> forall|i: int|
            0 <= i < check_ins.len() ==> check_in_date(#[trigger] check_ins[i]) is None,
        spec_earliest(check_ins) matches Some(first) ==> {
            &&& exists|i: int| 0 <= i < check_ins.len() && check_in_date(#[trigger] check_ins[i]) == Some(first)
            &&& forall|i: int|
                0 <= i < check_ins.len() ==> (check_in_date(#[trigger] check_ins[i]) matches Some(date)
                    ==> spec_days_from_civil(first) <= spec_days_from_civil(date))
        },
    decreases check_ins.len(),
{
    if check_ins.len() > 0 {
        let rest = check_ins.drop_last();
        let n = check_ins.len() - 1;
        lemma_the_series_starts_at_the_earliest_check_in(rest);
        assert forall|i: int| 0 <= i < n implies #[trigger] check_ins[i] == rest[i] by {}
        assert(check_ins.last() == check_ins[n]);
        match spec_earliest(check_ins) {
            None => {
                assert forall|i: int| 0 <= i < check_ins.len() implies check_in_date(#[trigger] check_ins[i])
                    is None by {
                    if i < n {
                        assert(check_ins[i] == rest[i]);
                    }
                }
            },
            Some(first) => {
                match check_in_date(check_ins[n]) {
                    None => {
                        let j = choose|i: int| 0 <= i < rest.len() && check_in_date(#[trigger] rest[i]) == Some(first);
                        assert(check_ins[j] == rest[j]);
                    },
                    Some(last) => {
                        if let Some(found) = spec_earliest(rest) {
                            if spec_days_from_civil(found) <= spec_days_from_civil(last) {
                                let j = choose|i: int|
                                    0 <= i < rest.len() && check_in_date(#[trigger] rest[i]) == Some(found);
                                assert(check_ins[j] == rest[j]);
                            }
                        }
                    },
                }
                assert forall|i: int|
                    0 <= i < check_ins.len() implies (check_in_date(#[trigger] check_ins[i]) matches Some(date)
                    ==> spec_days_from_civil(first) <= spec_days_from_civil(date)) by {
                    if i < n {
                        assert(check_ins[i] == rest[i]);
                    }
                }
            },
        }
    }
}

proof fn lemma_same_earliest(a: Seq<Seq<char>>, b: Seq<Seq<char>>)
    requires
        forall|x: Seq<char>| a.contains(x) <==> b.contains(x),
    ensures
        spec_earliest(a) == spec_earliest(b),
{
    lemma_the_series_starts_at_the_earliest_check_in(a);
    lemma_the_series_starts_at_the_earliest_check_in(b);
    match (spec_earliest(a), spec_earliest(b)) {
        (Some(x), Some(y)) => {
            let i = choose|i: int| 0 <= i < a.len() && check_in_date(#[trigger] a[i]) == Some(x);
            let j = choose|j: int| 0 <= j < b.len() && check_in_date(#[trigger] b[j]) == Some(y);
            assert(a.contains(a[i]));
            let j2 = choose|k: int| 0 <= k < b.len() && b[k] == a[i];
            assert(check_in_date(b[j2]) == Some(x));
            assert(b.contains(b[j]));
            let i2 = choose|k: int| 0 <= k < a.len() && a[k] == b[j];
            assert(check_in_date(a[i2]) == Some(y));
            crate::civil::lemma_parsed_date_readable(vstd::utf8::encode_utf8(a[i]));
            crate::civil::lemma_parsed_date_readable(vstd::utf8::encode_utf8(b[j]));
            lemma_readable_days_public(x);
            lemma_readable_days_public(y);
            crate::civil::lemma_round_trip_iff_valid(x);
            crate::civil::lemma_round_trip_iff_valid(y);
            assert(spec_days_from_civil(x) == spec_days_from_civil(y));
        },
        (Some(x), None) => {
            let i = choose|i: int| 0 <= i < a.len() && check_in_date(#[trigger] a[i]) == Some(x);
            assert(a.contains(a[i]));
            let k = choose|k: int| 0 <= k < b.len() && b[k] == a[i];
            assert(check_in_date(b[k]) is None);
        },
        (None, Some(y)) => {
            let j = choose|j: int| 0 <= j < b.len() && check_in_date(#[trigger] b[j]) == Some(y);
            assert(b.contains(b[j]));
            let k = choose|k: int| 0 <= k < a.len() && a[k] == b[j];
            assert(check_in_date(a[k]) is None);
        },
        (None, None) => {},
    }
}

proof fn lemma_same_run(grid: Seq<CivilDate>, a: Seq<Seq<char>>, b: Seq<Seq<char>>, limit: nat)
    requires
        forall|x: Seq<char>| a.contains(x) <==> b.contains(x),
    ensures
        checked_run(grid, a) == checked_run(grid, b),
        recent_misses(grid, a, limit) == recent_misses(grid, b, limit),
    decreases grid.len(),
{
    if grid.len() > 0 {
        lemma_same_run(grid.drop_last(), a, b, limit);
        if limit > 0 {
            lemma_same_run(grid.drop_last(), a, b, (limit - 1) as nat);
        }
        let text = spec_format_iso_date(grid.last());
        assert(a.contains(text) <==> b.contains(text));
    }
}

/// A habit's progress does not depend on the order its check-ins are listed
/// in, nor on how often each is listed: two lists holding the same check-ins
/// give the same streak and the same make-up days. A make-up check-in
/// appended after newer ones counts exactly as if it had been stored in date
/// order.
pub proof fn lemma_progress_ignores_the_order_of_check_ins(
    rule: RecurrenceRule,
    due_date: Seq<u8>,
    check_ins: Seq<Seq<char>>,
    reordered: Seq<Seq<char>>,
)
    requires
        forall|x: Seq<char>| check_ins.contains(x) <==> reordered.contains(x),
    ensures
        spec_habit_progress(rule, due_date, check_ins) == spec_habit_progress(rule, due_date, reordered),
{
    lemma_same_earliest(check_ins, reordered);
    if let Some(due) = spec_parse_date(due_date) {
        if let Some(oldest) = spec_earliest(check_ins) {
            if spec_days_from_civil(due) - 1 >= spec_days_from_civil(oldest) {
                if let Ok(grid) = spec_series_through(
                    rule,
                    None,
                    oldest,
                    spec_civil_from_days(spec_days_from_civil(due) - 1),
                ) {
                    lemma_same_run(grid, check_ins, reordered, MAKEUP_LIMIT as nat);
                }
            }
        }
        if let Some(window) = spec_window_days(rule) {
            let start = spec_days_from_civil(due) - window;
            let last = spec_days_from_civil(due) - 1;
            if let Ok(grid) = spec_series_through(rule, None, spec_civil_from_days(start), spec_civil_from_days(last)) {
                lemma_same_run(grid, check_ins, reordered, MAKEUP_LIMIT as nat);
            }
        }
    }
}

/// How many of the last dates of `grid`, in a row, are checked in.
pub open spec fn checked_run(grid: Seq<CivilDate>, check_ins: Seq<Seq<char>>) -> nat
    decreases grid.len(),
{
    if grid.len() > 0 && check_ins.contains(spec_format_iso_date(grid.last())) {
        1 + checked_run(grid.drop_last(), check_ins)
    } else {
        0
    }
}

/// The dates of `grid` not checked in, the latest first, at most `limit` of
/// them.
pub open spec fn recent_misses(grid: Seq<CivilDate>, check_ins: Seq<Seq<char>>, limit: nat) -> Seq<Seq<char>>
    decreases grid.len(),
{
    if grid.len() == 0 || limit == 0 {
        Seq::empty()
    } else {
        let text = spec_format_iso_date(grid.last());
        if check_ins.contains(text) {
            recent_misses(grid.drop_last(), check_ins, limit)
        } else {
            seq![text] + recent_misses(grid.drop_last(), check_ins, (limit - 1) as nat)
        }
    }
}

/// The streak: the series laid from the oldest check-in to the day before
/// `due`, and the run of checked days at its end. The rule's count is
/// measured from an anchor the habit no longer carries, so it is not read.
pub open spec fn spec_streak(rule: RecurrenceRule, due: CivilDate, check_ins: Seq<Seq<char>>) -> Result<nat, RecurrenceError> {
    match spec_earliest(check_ins) {
        None => Ok(0),
        Some(oldest) => if spec_days_from_civil(due) - 1 < spec_days_from_civil(oldest) {
            Ok(0)
        } else {
            match spec_series_through(
                rule,
                None,
                oldest,
                spec_civil_from_days(spec_days_from_civil(due) - 1),
            ) {
                Err(error) => Err(error),
                Ok(grid) => Ok(checked_run(grid, check_ins)),
            }
        },
    }
}

/// The make-up days: the series laid from `window` days before `due` to the
/// day before it, and its latest unchecked dates. A window that would open
/// before year 0 is refused: for a rule the contract refuses, with that
/// refusal, otherwise as a date that cannot be read.
pub open spec fn spec_makeup(rule: RecurrenceRule, due: CivilDate, window: int, check_ins: Seq<Seq<char>>) -> Result<Seq<Seq<char>>, RecurrenceError> {
    let start = spec_days_from_civil(due) - window;
    let last = spec_days_from_civil(due) - 1;
    if last < start {
        Ok(Seq::empty())
    } else if !readable_date(spec_civil_from_days(start)) {
        match crate::contracts::pattern_fault(rule) {
            Some(error) => Err(RecurrenceError::UnusableRule(error)),
            None => Err(RecurrenceError::UnreadableDate),
        }
    } else {
        match spec_series_through(rule, None, spec_civil_from_days(start), spec_civil_from_days(last)) {
            Err(error) => Err(error),
            Ok(grid) => Ok(recent_misses(grid, check_ins, MAKEUP_LIMIT as nat)),
        }
    }
}

/// What [`habit_progress`] answers: the streak and the make-up days, or the
/// refusal that stopped it.
pub open spec fn spec_habit_progress(rule: RecurrenceRule, due_date: Seq<u8>, check_ins: Seq<Seq<char>>) -> Result<(nat, Seq<Seq<char>>), RecurrenceError> {
    match spec_window_days(rule) {
        None => Ok((0, Seq::empty())),
        Some(window) => match spec_parse_date(due_date) {
            None => Err(RecurrenceError::UnreadableDate),
            Some(due) => match spec_streak(rule, due, check_ins) {
                Err(error) => Err(error),
                Ok(streak) => match spec_makeup(rule, due, window, check_ins) {
                    Err(error) => Err(error),
                    Ok(makeup) => Ok((streak, makeup)),
                },
            },
        },
    }
}

/// The streak and recent make-up days for a habit.
///
/// `due_date` is the task's current due date — its next occurrence — and
/// `check_ins` the scheduled dates already checked, both `YYYY-MM-DD`. Only a
/// daily or weekly rule is a habit; any other frequency answers with an empty
/// progress.
pub fn habit_progress(rule: &RecurrenceRule, due_date: &str, check_ins: &[String]) -> (answer: Result<HabitProgress, RecurrenceError>)
    ensures
        match spec_habit_progress(*rule, due_date.spec_bytes(), ids_view(check_ins@)) {
            Err(error) => answer == Err::<HabitProgress, RecurrenceError>(error),
            Ok((streak, makeup)) => answer matches Ok(progress) && progress.streak == streak
                && ids_view(progress.makeup@) == makeup,
        },
{
    let window = match makeup_window_days(rule) {
        Some(days) => days,
        None => return Ok(HabitProgress { streak: 0, makeup: Vec::new() }),
    };
    let due = match parse_date(due_date) {
        Some(date) => date,
        None => return Err(RecurrenceError::UnreadableDate),
    };
    proof {
        crate::civil::lemma_parsed_date_readable(due_date.spec_bytes());
    }
    let streak = match streak_count(rule, due, check_ins) {
        Ok(streak) => streak,
        Err(error) => return Err(error),
    };
    let makeup = match makeup_days(rule, due, window, check_ins) {
        Ok(makeup) => makeup,
        Err(error) => return Err(error),
    };
    Ok(HabitProgress { streak, makeup })
}

/// How far back the make-up window reaches, or `None` for a rule that is not
/// a habit.
fn makeup_window_days(rule: &RecurrenceRule) -> (days: Option<i64>)
    ensures
        match spec_window_days(*rule) {
            Some(window) => days == Some(window as i64) && 0 <= window <= 28 * 0xffff_ffff,
            None => days is None,
        },
{
    let interval = rule.interval as i64;
    match rule.frequency {
        RecurrenceFrequency::Daily => Some(8 * interval),
        RecurrenceFrequency::Weekly => Some(28 * interval),
        _ => None,
    }
}

/// The earliest check-in that reads as a date.
fn earliest_check_in(check_ins: &[String]) -> (earliest: Option<CivilDate>)
    ensures
        earliest == spec_earliest(ids_view(check_ins@)),
        earliest matches Some(date) ==> readable_date(date),
        earliest matches Some(first) ==> {
            &&& exists|i: int|
                0 <= i < check_ins@.len() && check_in_date(#[trigger] check_ins@[i]@) == Some(first)
            &&& forall|i: int|
                0 <= i < check_ins@.len() ==> (check_in_date(#[trigger] check_ins@[i]@) matches Some(date)
                    ==> spec_days_from_civil(first) <= spec_days_from_civil(date))
        },
        earliest is None ==> forall|i: int|
            0 <= i < check_ins@.len() ==> check_in_date(#[trigger] check_ins@[i]@) is None,
{
    let ghost all = ids_view(check_ins@);
    let mut earliest: Option<CivilDate> = None;
    let mut i: usize = 0;
    while i < check_ins.len()
        invariant
            0 <= i <= check_ins.len(),
            all == ids_view(check_ins@),
            earliest == spec_earliest(all.take(i as int)),
            earliest matches Some(date) ==> readable_date(date),
        decreases check_ins.len() - i,
    {
        proof {
            assert(all.take(i + 1).drop_last() =~= all.take(i as int));
            assert(all.take(i + 1).last() == check_ins@[i as int]@);
        }
        match parse_date(check_ins[i].as_str()) {
            None => {},
            Some(date) => {
                proof {
                    crate::civil::lemma_parsed_date_readable(
                        vstd::utf8::encode_utf8(check_ins@[i as int]@),
                    );
                    lemma_readable_days_public(date);
                }
                earliest = match earliest {
                    Some(found) => {
                        proof {
                            lemma_readable_days_public(found);
                        }
                        if days_from_civil(found) <= days_from_civil(date) {
                            Some(found)
                        } else {
                            Some(date)
                        }
                    },
                    None => Some(date),
                };
            },
        }
        i = i + 1;
    }
    assert(all.take(check_ins.len() as int) =~= all);
    proof {
        lemma_the_series_starts_at_the_earliest_check_in(all);
        assert forall|i: int| 0 <= i < check_ins@.len() implies #[trigger] all[i] == check_ins@[i]@ by {
            assert(all[i] == ids_view(check_ins@)[i]);
        }
        if let Some(first) = earliest {
            let j = choose|i: int| 0 <= i < all.len() && check_in_date(#[trigger] all[i]) == Some(first);
            assert(all[j] == check_ins@[j]@);
            assert(check_in_date(check_ins@[j]@) == Some(first));
            assert forall|i: int|
                0 <= i < check_ins@.len() implies (check_in_date(#[trigger] check_ins@[i]@) matches Some(date)
                ==> spec_days_from_civil(first) <= spec_days_from_civil(date)) by {
                assert(all[i] == check_ins@[i]@);
                assert(check_in_date(all[i]) matches Some(date) ==> spec_days_from_civil(first)
                    <= spec_days_from_civil(date));
            }
        } else {
            assert forall|i: int| 0 <= i < check_ins@.len() implies check_in_date(#[trigger] check_ins@[i]@)
                is None by {
                assert(all[i] == check_ins@[i]@);
                assert(check_in_date(all[i]) is None);
            }
        }
    }
    earliest
}

/// Scheduled days checked in a row, counting back from the day before `due`.
///
/// The oldest check-in is itself an occurrence and a valid anchor for a daily
/// or weekly rule, so the series is laid forward from it and the run is read
/// off its end.
fn streak_count(rule: &RecurrenceRule, due: CivilDate, check_ins: &[String]) -> (answer: Result<u32, RecurrenceError>)
    requires
        readable_date(due),
    ensures
        match spec_streak(*rule, due, ids_view(check_ins@)) {
            Err(error) => answer == Err::<u32, RecurrenceError>(error),
            Ok(streak) => answer == Ok::<u32, RecurrenceError>(streak as u32) && streak <= u32::MAX,
        },
{
    let oldest = match earliest_check_in(check_ins) {
        Some(date) => date,
        None => return Ok(0),
    };
    proof {
        lemma_readable_days_public(due);
        lemma_readable_days_public(oldest);
        lemma_days_of_civil(spec_days_from_civil(due) - 1);
    }
    let last_due = add_days(due, -1);
    if days_from_civil(last_due) < days_from_civil(oldest) {
        return Ok(0);
    }
    proof {
        lemma_readable_between(oldest, last_due, due);
        lemma_readable_days_public(last_due);
    }
    let grid = match occurrences_through(rule, None, oldest, last_due) {
        Ok(grid) => grid,
        Err(error) => return Err(error),
    };
    Ok(trailing_checked(&grid, check_ins))
}

/// How many of the last dates of `grid`, in a row, are checked in.
fn trailing_checked(grid: &Vec<CivilDate>, check_ins: &[String]) -> (run: u32)
    requires
        grid.len() <= 4_000_000,
    ensures
        run == checked_run(grid@, ids_view(check_ins@)),
{
    let ghost checked = ids_view(check_ins@);
    let mut streak: u32 = 0;
    let mut k: usize = grid.len();
    assert(grid@.take(k as int) =~= grid@);
    while k > 0
        invariant
            k <= grid.len(),
            grid.len() <= 4_000_000,
            streak == grid.len() - k,
            checked == ids_view(check_ins@),
            checked_run(grid@, checked) == streak + checked_run(grid@.take(k as int), checked),
        ensures
            checked_run(grid@, checked) == streak,
        decreases k,
    {
        let text = format_iso_date(grid[k - 1]);
        proof {
            assert(grid@.take(k as int).drop_last() =~= grid@.take(k - 1));
            assert(grid@.take(k as int).last() == grid@[k - 1]);
        }
        if !contains_id(check_ins, &text) {
            break;
        }
        streak = streak + 1;
        k = k - 1;
    }
    streak
}


/// The recent scheduled days that have fallen due but were not checked in,
/// most recent first, at most [`MAKEUP_LIMIT`].
///
/// The window ends the day before `due` — the current occurrence is checked
/// through the row itself, never made up — and opens `window` days earlier, a
/// whole number of periods before `due`, so its first day is on the grid.
#[verifier::spinoff_prover]
#[verifier::rlimit(100)]
fn makeup_days(rule: &RecurrenceRule, due: CivilDate, window: i64, check_ins: &[String]) -> (answer: Result<Vec<String>, RecurrenceError>)
    requires
        readable_date(due),
        0 <= window <= 28 * 0xffff_ffff,
    ensures
        match spec_makeup(*rule, due, window as int, ids_view(check_ins@)) {
            Err(error) => answer == Err::<Vec<String>, RecurrenceError>(error),
            Ok(makeup) => answer matches Ok(found) && ids_view(found@) == makeup,
        },
{
    let ghost start = spec_days_from_civil(due) - window;
    let ghost last = spec_days_from_civil(due) - 1;
    if window == 0 {
        return Ok(Vec::new());
    }
    proof {
        lemma_readable_days_public(due);
        lemma_days_of_civil(last);
        lemma_days_of_civil(start);
    }
    let window_start = add_days(due, -window);
    let last_due = add_days(due, -1);
    assert(window_start == spec_civil_from_days(start));
    assert(last_due == spec_civil_from_days(last));
    if window_start.year < 0 {
        assert(!readable_date(spec_civil_from_days(start)));
        return match rule.validate_pattern() {
            Err(error) => Err(RecurrenceError::UnusableRule(error)),
            Ok(()) => Err(RecurrenceError::UnreadableDate),
        };
    }
    proof {
        crate::recurrence::lemma_readable_below(window_start, due);
        lemma_readable_between(window_start, last_due, due);
    }
    let grid = match occurrences_through(rule, None, window_start, last_due) {
        Ok(grid) => grid,
        Err(error) => return Err(error),
    };
    Ok(latest_misses(&grid, check_ins))
}

/// The dates of `grid` not checked in, the latest first, at most
/// [`MAKEUP_LIMIT`] of them.
fn latest_misses(grid: &Vec<CivilDate>, check_ins: &[String]) -> (misses: Vec<String>)
    ensures
        ids_view(misses@) == recent_misses(grid@, ids_view(check_ins@), MAKEUP_LIMIT as nat),
{
    let ghost checked = ids_view(check_ins@);
    let mut misses: Vec<String> = Vec::new();
    let mut k: usize = grid.len();
    let mut left: usize = MAKEUP_LIMIT;
    assert(grid@.take(k as int) =~= grid@);
    assert(ids_view(misses@) =~= Seq::<Seq<char>>::empty());
    while k > 0 && left > 0
        invariant
            k <= grid.len(),
            left <= MAKEUP_LIMIT,
            checked == ids_view(check_ins@),
            recent_misses(grid@, checked, MAKEUP_LIMIT as nat) == ids_view(misses@) + recent_misses(
                grid@.take(k as int),
                checked,
                left as nat,
            ),
        decreases k,
    {
        let text = format_iso_date(grid[k - 1]);
        proof {
            assert(grid@.take(k as int).drop_last() =~= grid@.take(k - 1));
            assert(grid@.take(k as int).last() == grid@[k - 1]);
        }
        if !contains_id(check_ins, &text) {
            proof {
                let rest = recent_misses(grid@.take(k - 1), checked, (left - 1) as nat);
                assert(ids_view(misses@.push(text)) =~= ids_view(misses@).push(text@));
                assert(ids_view(misses@) + (seq![text@] + rest) =~= ids_view(misses@).push(text@)
                    + rest);
            }
            misses.push(text);
            left = left - 1;
        }
        k = k - 1;
    }
    assert(recent_misses(grid@.take(k as int), checked, left as nat) =~= Seq::empty());
    assert(ids_view(misses@) + Seq::<Seq<char>>::empty() =~= ids_view(misses@));
    misses
}

} // verus!
