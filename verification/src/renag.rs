//! Deciding when an overdue task should be nagged again — the pure half of the
//! native reminder scheduler's renag pass.
//!
//! The nag times are a decaying backoff from the moment the task turns
//! overdue: `+1h → +3h → +7h → +15h`, then once every 24 hours from there, with
//! no hard stop. Only completing the task, archiving it, moving its deadline
//! into the future, or turning the switch off stops it.
//!
//! Each nag is a delivery of its own: its moment is a synthetic key
//! (`renag:<unix>`) recorded in the same delivery set the reminders use, in a
//! namespace a real reminder instant can never collide with.

use vstd::prelude::*;

use crate::civil::{days_from_civil, spec_days_from_civil};
use crate::contracts::{Todo, TodoStatus};
use crate::dependency::dependency_lock;
use crate::ics::stored_date;
use crate::reminder::{is_delivered, is_locked, known_ids, completed_ids, lock_context, was_delivered};
use crate::text::{
    all_digits, decimal, digits_value, ids_view, is_digit_byte, lemma_ascii_encodes,
    lemma_decimal_reads_back, lemma_encode_append, padded_signed, push_signed_wide, push_str,
};
use vstd::utf8::encode_utf8;
use vstd::string::StringSliceAdditionalSpecFns;

verus! {

/// Seconds in a day.
pub const SECONDS_PER_DAY: i64 = 86_400;

/// Seconds in an hour.
pub const HOUR: i64 = 3_600;

/// The steady spacing once the front-loaded steps are spent: one nag a day.
pub const RENAG_DAILY_SECONDS: i64 = 24 * 3_600;

/// The offset from the overdue anchor of the most recent nag due after
/// `elapsed` seconds overdue, or `None` when the first nag is still ahead: the
/// greatest of 1h, 3h, 7h and 15h at or before `elapsed` for the first day and
/// a bit, then one nag every 24 hours from the 15-hour mark.
pub open spec fn spec_latest_renag_offset(elapsed: int) -> Option<int> {
    let hour = HOUR as int;
    let day = RENAG_DAILY_SECONDS as int;
    if elapsed < hour {
        None
    } else if elapsed < 15 * hour + day {
        if elapsed >= 15 * hour {
            Some(15 * hour)
        } else if elapsed >= 7 * hour {
            Some(7 * hour)
        } else if elapsed >= 3 * hour {
            Some(3 * hour)
        } else {
            Some(hour)
        }
    } else {
        Some(15 * hour + ((elapsed - 15 * hour) / day) * day)
    }
}

/// The offset of the most recent nag due after `elapsed` seconds overdue;
/// `None` when the first nag is still ahead, a negative `elapsed` included.
///
/// Only the latest, not every nag whose time has passed, so a catch-up after
/// downtime is a single nag rather than a burst.
pub fn latest_renag_offset(elapsed: i64) -> (offset: Option<i64>)
    ensures
        offset == match spec_latest_renag_offset(elapsed as int) {
            Some(o) => Some(o as i64),
            None => None::<i64>,
        },
        offset matches Some(o) ==> HOUR <= o <= elapsed,
{
    match latest_offset_wide(elapsed as i128) {
        Some(o) => Some(o as i64),
        None => None,
    }
}

/// [`latest_renag_offset`] over a wider range of `elapsed`.
fn latest_offset_wide(elapsed: i128) -> (offset: Option<i128>)
    ensures
        offset == match spec_latest_renag_offset(elapsed as int) {
            Some(o) => Some(o as i128),
            None => None::<i128>,
        },
        offset matches Some(o) ==> HOUR <= o <= elapsed,
{
    let hour: i128 = 3_600;
    let daily: i128 = 86_400;
    if elapsed < hour {
        return None;
    }
    let cap = 15 * hour;
    if elapsed < cap + daily {
        return if elapsed >= cap {
            Some(cap)
        } else if elapsed >= 7 * hour {
            Some(7 * hour)
        } else if elapsed >= 3 * hour {
            Some(3 * hour)
        } else {
            Some(hour)
        };
    }
    let days_past = (elapsed - cap) / daily;
    assert(days_past * daily <= elapsed - cap) by (nonlinear_arith)
        requires
            days_past == (elapsed - cap) / (daily as int),
            elapsed - cap >= 0,
            daily == 86_400,
    ;
    assert(days_past * daily >= 0) by (nonlinear_arith)
        requires
            days_past >= 0,
            daily == 86_400,
    ;
    Some(cap + days_past * daily)
}

/// The delivery key of the nag at `occurrence`.
pub open spec fn renag_key(occurrence: int) -> Seq<char> {
    "renag:"@ + padded_signed(occurrence, 1)
}

/// The bytes of the key prefix, `renag:`.
pub open spec fn renag_prefix() -> Seq<u8> {
    seq![114u8, 101u8, 110u8, 97u8, 103u8, 58u8]
}

/// A run of decimal digits with an optional sign, read as an `i64` the way
/// `str::parse` reads one: `None` when it is empty, holds anything else, or is
/// out of range.
pub open spec fn spec_parse_i64(bytes: Seq<u8>) -> Option<int> {
    if bytes.len() == 0 {
        None
    } else {
        let negative = bytes[0] == 45;
        let digits = if bytes[0] == 45 || bytes[0] == 43 {
            bytes.drop_first()
        } else {
            bytes
        };
        if digits.len() == 0 || !all_digits(digits) {
            None
        } else {
            let value = if negative {
                -(digits_value(digits) as int)
            } else {
                digits_value(digits) as int
            };
            if i64::MIN <= value <= i64::MAX {
                Some(value)
            } else {
                None
            }
        }
    }
}

/// The Unix instant a renag key stands for, or `None` when the value is not a
/// renag key.
pub open spec fn spec_renag_occurrence(bytes: Seq<u8>) -> Option<int> {
    if bytes.len() >= 6 && bytes.subrange(0, 6) == renag_prefix() {
        spec_parse_i64(bytes.subrange(6, bytes.len() as int))
    } else {
        None
    }
}

/// One past the largest magnitude an `i64` can hold.
const MAGNITUDE_CAP: i128 = 9_223_372_036_854_775_808;

/// A magnitude held at one past the cap once it passes it.
spec fn saturated(value: nat) -> int {
    if value > MAGNITUDE_CAP {
        MAGNITUDE_CAP + 1
    } else {
        value as int
    }
}

proof fn lemma_saturated_step(before: Seq<u8>, after: Seq<u8>)
    requires
        after.len() > 0,
        after.drop_last() == before,
        is_digit_byte(after.last()),
    ensures
        saturated(digits_value(after)) == (if saturated(digits_value(before)) > MAGNITUDE_CAP {
            MAGNITUDE_CAP + 1
        } else if saturated(digits_value(before)) * 10 + (after.last() - 48) > MAGNITUDE_CAP {
            MAGNITUDE_CAP + 1
        } else {
            saturated(digits_value(before)) * 10 + (after.last() - 48)
        }),
{
}

proof fn lemma_digit_run_grows(before: Seq<u8>, after: Seq<u8>)
    requires
        after.len() > 0,
        after.drop_last() == before,
        all_digits(before),
        is_digit_byte(after.last()),
    ensures
        all_digits(after),
{
    assert forall|k: int| 0 <= k < after.len() implies is_digit_byte(#[trigger] after[k]) by {
        if k < before.len() {
            assert(after[k] == before[k]);
        }
    }
}

fn parse_i64(bytes: &[u8]) -> (value: Option<i64>)
    ensures
        value == match spec_parse_i64(bytes@) {
            Some(v) => Some(v as i64),
            None => None::<i64>,
        },
{
    let n = bytes.len();
    if n == 0 {
        return None;
    }
    let negative = bytes[0] == 45;
    let start: usize = if bytes[0] == 45 || bytes[0] == 43 {
        1
    } else {
        0
    };
    let ghost digits = bytes@.subrange(start as int, n as int);
    proof {
        if start == 1 {
            assert(digits =~= bytes@.drop_first());
        } else {
            assert(digits =~= bytes@);
        }
    }
    if start == n {
        return None;
    }
    // The magnitude so far, held at one past the cap once it passes it.
    let mut magnitude: i128 = 0;
    let mut i = start;
    while i < n
        invariant
            start <= i <= n,
            n == bytes@.len(),
            digits == bytes@.subrange(start as int, n as int),
            n > 0,
            digits == (if bytes@[0] == 45 || bytes@[0] == 43 {
                bytes@.drop_first()
            } else {
                bytes@
            }),
            negative == (bytes@[0] == 45),
            all_digits(digits.subrange(0, i - start)),
            magnitude == saturated(digits_value(digits.subrange(0, i - start))),
        decreases n - i,
    {
        if !crate::text::digit_byte(bytes[i]) {
            proof {
                assert(digits[i - start] == bytes@[i as int]);
                assert(!is_digit_byte(digits[i - start]));
                assert(!all_digits(digits));
            }
            return None;
        }
        let ghost before = digits.subrange(0, i - start);
        let d = (bytes[i] - 48) as i128;
        proof {
            let after = digits.subrange(0, i + 1 - start);
            assert(after.drop_last() =~= before);
            assert(after.last() == bytes@[i as int]);
            lemma_digit_run_grows(before, after);
            lemma_saturated_step(before, after);
        }
        magnitude = if magnitude > MAGNITUDE_CAP {
            MAGNITUDE_CAP + 1
        } else {
            let next = magnitude * 10 + d;
            if next > MAGNITUDE_CAP {
                MAGNITUDE_CAP + 1
            } else {
                next
            }
        };
        i = i + 1;
    }
    proof {
        assert(digits.subrange(0, n - start) =~= digits);
    }
    if magnitude > MAGNITUDE_CAP {
        return None;
    }
    if negative {
        Some((-magnitude) as i64)
    } else if magnitude <= 9_223_372_036_854_775_807 {
        Some(magnitude as i64)
    } else {
        None
    }
}

/// The Unix instant a renag key stands for, or `None` when the value is not a
/// renag key this crate wrote.
pub fn renag_occurrence_unix(reminder_at: &str) -> (unix: Option<i64>)
    ensures
        unix == match spec_renag_occurrence(reminder_at.spec_bytes()) {
            Some(v) => Some(v as i64),
            None => None::<i64>,
        },
{
    let bytes = reminder_at.as_bytes();
    let n = bytes.len();
    if n < 6 || bytes[0] != 114 || bytes[1] != 101 || bytes[2] != 110 || bytes[3] != 97 || bytes[4]
        != 103 || bytes[5] != 58 {
        proof {
            if n >= 6 {
                assert(bytes@.subrange(0, 6) != renag_prefix()) by {
                    if bytes@.subrange(0, 6) == renag_prefix() {
                        assert(bytes@.subrange(0, 6)[0] == bytes@[0]);
                        assert(bytes@.subrange(0, 6)[1] == bytes@[1]);
                        assert(bytes@.subrange(0, 6)[2] == bytes@[2]);
                        assert(bytes@.subrange(0, 6)[3] == bytes@[3]);
                        assert(bytes@.subrange(0, 6)[4] == bytes@[4]);
                        assert(bytes@.subrange(0, 6)[5] == bytes@[5]);
                    }
                }
            }
        }
        return None;
    }
    proof {
        assert(bytes@.subrange(0, 6) =~= renag_prefix());
    }
    parse_i64(&bytes[6..n])
}


/// One overdue task that should be nagged now.
#[derive(Clone, Debug)]
pub struct RenagDue {
    /// The task the nag belongs to.
    pub todo_id: String,
    /// The task's title, shown as the notification's headline.
    pub title: String,
    /// The synthetic delivery key for this nag (`renag:<unix>`).
    pub reminder_at: String,
    /// How many whole local calendar days the task is past its due date.
    pub days_overdue: i64,
}

/// The instant a task turns overdue: local midnight of the day after its due
/// date, carried to UTC.
pub open spec fn overdue_anchor(due_day: int, zone: int) -> int {
    (due_day + 1) * SECONDS_PER_DAY - zone
}

/// The nag one task is owed at `now`, as the instant it stands for and how
/// many local days the task is overdue; `None` when it is owed none.
pub open spec fn renag_owed(
    todos: Seq<Todo>,
    todo: Todo,
    delivered: Seq<(String, String)>,
    now: int,
    zone: int,
) -> Option<(int, int)> {
    if todo.status != TodoStatus::Open || todo.archived_at is Some {
        None
    } else {
        match stored_date(todo.due_date) {
            None => None,
            Some(due) => {
                let anchor = overdue_anchor(spec_days_from_civil(due), zone);
                if now < anchor || is_locked(todos, todo) {
                    None
                } else {
                    match spec_latest_renag_offset(now - anchor) {
                        None => None,
                        Some(offset) => if is_delivered(
                            delivered,
                            todo.id@,
                            renag_key(anchor + offset),
                        ) {
                            None
                        } else {
                            Some(
                                (
                                    anchor + offset,
                                    (now + zone) / (SECONDS_PER_DAY as int) - spec_days_from_civil(due),
                                ),
                            )
                        },
                    }
                }
            },
        }
    }
}

/// Whether a raised nag is the one a task is owed.
pub open spec fn is_nag_for(nag: RenagDue, todo: Todo, owed: (int, int)) -> bool {
    &&& nag.todo_id == todo.id
    &&& nag.title == todo.title
    &&& nag.reminder_at@ == renag_key(owed.0)
    &&& nag.days_overdue == owed.1
}

/// The indices of the first `n` tasks that are owed a nag, in order.
pub open spec fn nagged_tasks(
    todos: Seq<Todo>,
    n: int,
    delivered: Seq<(String, String)>,
    now: int,
    zone: int,
) -> Seq<int>
    decreases n,
{
    if n <= 0 {
        seq![]
    } else if renag_owed(todos, todos[n - 1], delivered, now, zone) is Some {
        nagged_tasks(todos, n - 1, delivered, now, zone).push(n - 1)
    } else {
        nagged_tasks(todos, n - 1, delivered, now, zone)
    }
}

/// Whether `due` is exactly the nags the first `n` tasks are owed, in order.
pub open spec fn nags_match(
    due: Seq<RenagDue>,
    todos: Seq<Todo>,
    n: int,
    delivered: Seq<(String, String)>,
    now: int,
    zone: int,
) -> bool {
    let plan = nagged_tasks(todos, n, delivered, now, zone);
    &&& due.len() == plan.len()
    &&& forall|k: int|
        0 <= k < due.len() ==> 0 <= #[trigger] plan[k] < n && plan[k] < todos.len() && is_nag_for(
            due[k],
            todos[plan[k]],
            renag_owed(todos, todos[plan[k]], delivered, now, zone)->0,
        )
}

proof fn lemma_nagged_tasks_are_owed(
    todos: Seq<Todo>,
    n: int,
    delivered: Seq<(String, String)>,
    now: int,
    zone: int,
)
    ensures
        forall|k: int|
            0 <= k < nagged_tasks(todos, n, delivered, now, zone).len() ==> renag_owed(
                todos,
                todos[#[trigger] nagged_tasks(todos, n, delivered, now, zone)[k]],
                delivered,
                now,
                zone,
            ) is Some,
    decreases n,
{
    if n > 0 {
        lemma_nagged_tasks_are_owed(todos, n - 1, delivered, now, zone);
    }
}

/// A nag that has a delivery record is never raised again: the nags a poll
/// is owed carry keys the delivery set does not hold.
pub proof fn lemma_a_delivered_nag_is_not_raised_again(
    due: Seq<RenagDue>,
    todos: Seq<Todo>,
    n: int,
    delivered: Seq<(String, String)>,
    now: int,
    zone: int,
)
    requires
        nags_match(due, todos, n, delivered, now, zone),
    ensures
        forall|k: int| 0 <= k < due.len() ==> !is_delivered(delivered, (#[trigger] due[k]).todo_id@, due[k].reminder_at@),
{
    lemma_nagged_tasks_are_owed(todos, n, delivered, now, zone);
    let plan = nagged_tasks(todos, n, delivered, now, zone);
    assert forall|k: int| 0 <= k < due.len() implies !is_delivered(delivered, (#[trigger] due[k]).todo_id@, due[k].reminder_at@) by {
        let i = plan[k];
        assert(renag_owed(todos, todos[i], delivered, now, zone) is Some);
    }
}

proof fn lemma_nags_extend(
    before: Seq<RenagDue>,
    after: Seq<RenagDue>,
    todos: Seq<Todo>,
    i: int,
    delivered: Seq<(String, String)>,
    now: int,
    zone: int,
)
    requires
        0 <= i < todos.len(),
        nags_match(before, todos, i, delivered, now, zone),
        match renag_owed(todos, todos[i], delivered, now, zone) {
            Some(owed) => after.len() == before.len() + 1 && after.drop_last() == before
                && is_nag_for(after.last(), todos[i], owed),
            None => after == before,
        },
    ensures
        nags_match(after, todos, i + 1, delivered, now, zone),
{
    let prev = nagged_tasks(todos, i, delivered, now, zone);
    let next = nagged_tasks(todos, i + 1, delivered, now, zone);
    assert forall|k: int| 0 <= k < after.len() implies 0 <= #[trigger] next[k] < i + 1 && next[k]
        < todos.len() && is_nag_for(
        after[k],
        todos[next[k]],
        renag_owed(todos, todos[next[k]], delivered, now, zone)->0,
    ) by {
        if k < before.len() {
            assert(after[k] == before[k]);
            assert(next[k] == prev[k]);
            assert(0 <= prev[k] < i);
        } else {
            assert(next == prev.push(i));
            assert(next[k] == i);
        }
    }
}

/// The overdue tasks that should be nagged at `now_unix`, at most one nag
/// each — the most recent one due — so an app that was closed across several
/// overdue days catches up with a single nag.
///
/// `zone_offset_seconds` is where the device sits, in seconds east of UTC: a
/// due date is a local calendar day, so the instant it turns overdue is local
/// midnight of the following day.
pub fn due_renags(
    todos: &[Todo],
    delivered: &[(String, String)],
    now_unix: i64,
    zone_offset_seconds: i64,
) -> (due: Vec<RenagDue>)
    ensures
        nags_match(due@, todos@, todos@.len() as int, delivered@, now_unix as int, zone_offset_seconds as int),
{
    let (known, completed) = lock_context(todos);
    let mut due: Vec<RenagDue> = Vec::new();
    let mut i: usize = 0;
    while i < todos.len()
        invariant
            0 <= i <= todos@.len(),
            ids_view(known@) == known_ids(todos@),
            ids_view(completed@) == completed_ids(todos@),
            nags_match(due@, todos@, i as int, delivered@, now_unix as int, zone_offset_seconds as int),
        decreases todos@.len() - i,
    {
        let ghost before = due@;
        let owed = renag_for(todos, &todos[i], &known, &completed, delivered, now_unix, zone_offset_seconds);
        if let Some(nag) = owed {
            due.push(nag);
            proof {
                assert(due@.drop_last() =~= before);
            }
        }
        proof {
            lemma_nags_extend(before, due@, todos@, i as int, delivered@, now_unix as int, zone_offset_seconds as int);
        }
        i = i + 1;
    }
    due
}

/// The nag one task is owed at `now_unix`, if any.
fn renag_for(
    todos: &[Todo],
    todo: &Todo,
    known: &Vec<String>,
    completed: &Vec<String>,
    delivered: &[(String, String)],
    now_unix: i64,
    zone_offset_seconds: i64,
) -> (nag: Option<RenagDue>)
    requires
        ids_view(known@) == known_ids(todos@),
        ids_view(completed@) == completed_ids(todos@),
    ensures
        match renag_owed(todos@, *todo, delivered@, now_unix as int, zone_offset_seconds as int) {
            Some(owed) => nag matches Some(n) && is_nag_for(n, *todo, owed),
            None => nag is None,
        },
{
    // Completed or archived: off the overdue set entirely.
    if todo.status != TodoStatus::Open || todo.archived_at.is_some() {
        return None;
    }
    // Renag is anchored on the deadline; a due date this build cannot read is
    // skipped rather than treated as the epoch.
    let due_date = match &todo.due_date {
        Some(text) => match crate::civil::parse_date(text.as_str()) {
            Some(date) => date,
            None => return None,
        },
        None => return None,
    };
    proof {
        crate::civil::lemma_parsed_date_readable(vstd::utf8::encode_utf8(todo.due_date->0@));
        crate::recurrence::lemma_readable_days_public(due_date);
    }
    let due_day = days_from_civil(due_date);
    let day: i128 = 86_400;
    let now = now_unix as i128;
    let anchor = (due_day as i128 + 1) * day - zone_offset_seconds as i128;
    if now < anchor {
        return None;
    }
    // Still waiting on a prerequisite: a locked task nags nothing until it
    // opens.
    if dependency_lock(todo.depends_on.as_slice(), known.as_slice(), completed.as_slice()).locked {
        return None;
    }
    let offset = match latest_offset_wide(now - anchor) {
        Some(offset) => offset,
        None => return None,
    };
    let occurrence = anchor + offset;
    let mut key = String::new();
    push_str(&mut key, "renag:");
    push_signed_wide(&mut key, occurrence);
    if was_delivered(delivered, &todo.id, &key) {
        return None;
    }
    let local = now + zone_offset_seconds as i128;
    let mut local_day = local / day;
    if local % day < 0 {
        local_day = local_day - 1;
    }
    assert(local_day == local as int / (SECONDS_PER_DAY as int));
    let days_overdue = (local_day - due_day as i128) as i64;
    Some(
        RenagDue {
            todo_id: todo.id.clone(),
            title: todo.title.clone(),
            reminder_at: key,
            days_overdue,
        },
    )
}


/// A nag's key reads back to the instant it was built from: the key a poll
/// writes is the one the quiet window is later placed against.
pub proof fn lemma_renag_key_reads_back(occurrence: i64)
    ensures
        spec_renag_occurrence(encode_utf8(renag_key(occurrence as int))) == Some(occurrence as int),
{
    reveal_strlit("renag:");
    let prefix = "renag:"@;
    let number = padded_signed(occurrence as int, 1);
    lemma_encode_append(prefix, number);
    lemma_ascii_encodes(prefix);
    let head = encode_utf8(prefix);
    let tail = encode_utf8(number);
    let bytes = encode_utf8(renag_key(occurrence as int));
    assert(bytes == head + tail);
    assert(head =~= renag_prefix());
    assert(bytes.subrange(0, 6) =~= head);
    assert(bytes.subrange(6, bytes.len() as int) =~= tail);
    if occurrence < 0 {
        let magnitude = (-(occurrence as int)) as nat;
        assert(number == seq!['-'] + decimal(magnitude));
        lemma_encode_append(seq!['-'], decimal(magnitude));
        lemma_ascii_encodes(seq!['-']);
        lemma_decimal_reads_back(magnitude);
        assert(encode_utf8(seq!['-']) =~= seq![45u8]);
        assert(tail.drop_first() =~= encode_utf8(decimal(magnitude)));
    } else {
        assert(number == decimal(occurrence as nat));
        lemma_decimal_reads_back(occurrence as nat);
    }
}

} // verus!
