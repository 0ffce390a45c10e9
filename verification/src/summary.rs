//! Deciding whether the daily morning summary should go out now, and what it
//! should say.
//!
//! The summary is a timed aggregate: it fires once a day, at a time the user
//! sets, carrying a count rather than any one task.
//!
//! * **Once a day.** It rides the reminders' delivery set with a synthetic key
//!   — `summary:<YYYY-MM-DD>` on the local day — so a poll that has already sent
//!   today's stays quiet, and a machine that was off for a week catches up with
//!   today's summary only.
//! * **Only what is worth saying.** With nothing due today and nothing overdue
//!   the summary is silence, and a zero segment is dropped from the body.
//! * **Quiet-agnostic.** Holding a summary inside the do-not-disturb window is
//!   the scheduler's job; this answers from the counts as they stand now.

use vstd::prelude::*;

use crate::civil::{
    civil_from_days, days_from_civil, format_iso_date, spec_civil_from_days,
    spec_days_from_civil, spec_format_iso_date,
};
use crate::contracts::{Todo, TodoStatus};
use crate::ics::stored_date;
use crate::quiet::{parse_hm, spec_parse_hm};
use crate::reminder::{is_delivered, was_delivered};
use crate::text::{padded_signed, push_padded_signed, push_str};
use vstd::string::StringSliceAdditionalSpecFns;

verus! {

/// Seconds in a day.
pub const SECONDS_PER_DAY: i64 = 86_400;

/// The three counts the summary reports, as they stand at the poll it is
/// built.
#[derive(Clone, Copy, Debug, PartialEq, Eq, Structural)]
pub struct SummaryCounts {
    /// Open, un-archived tasks whose due date is today's local calendar day.
    pub due_today: i64,
    /// Open, un-archived tasks whose due date is a local calendar day before
    /// today's.
    pub overdue: i64,
    /// The "my day" count, or `None` while it has no source: a missing source
    /// is an omitted segment, not a zero.
    pub my_day: Option<i64>,
}

/// Whether there is nothing worth a summary.
pub open spec fn counts_empty(counts: SummaryCounts) -> bool {
    counts.due_today == 0 && counts.overdue == 0 && (counts.my_day is None || counts.my_day
        == Some(0i64))
}

impl SummaryCounts {
    /// Whether there is nothing worth a summary: no task due today, none
    /// overdue, and no "my day" items (or no source for them).
    pub fn is_empty(&self) -> (empty: bool)
        ensures
            empty == counts_empty(*self),
    {
        self.due_today == 0 && self.overdue == 0 && match self.my_day {
            Some(count) => count == 0,
            None => true,
        }
    }
}

/// The user's morning-summary preference: whether it is on, and the `"HH:mm"`
/// local time it should push at, kept as the raw string the settings store
/// holds.
#[derive(Clone, Debug)]
pub struct MorningSummaryPrefs {
    pub enabled: bool,
    pub time: String,
}

/// One morning summary that should be raised now.
#[derive(Clone, Debug)]
pub struct MorningSummary {
    /// The synthetic task id the delivery is recorded under.
    pub todo_id: String,
    /// The synthetic delivery key for today's summary (`summary:<YYYY-MM-DD>`).
    pub reminder_at: String,
    /// The instant the summary was scheduled for: today's local date at the
    /// push time.
    pub scheduled_unix: i64,
    /// The notification headline.
    pub title: String,
    /// The count body: the non-zero segments joined with ` · `, ending in a
    /// full stop.
    pub body: String,
}

/// Whether a task is on the list the user sees: open and not archived.
pub open spec fn on_the_list(todo: Todo) -> bool {
    todo.status == TodoStatus::Open && todo.archived_at is None
}

/// How many of the first `n` tasks fall due on day `today`, and how many
/// before it.
pub open spec fn day_counts(todos: Seq<Todo>, n: int, today: int) -> (nat, nat)
    decreases n,
{
    if n <= 0 {
        (0, 0)
    } else {
        let (due, late) = day_counts(todos, n - 1, today);
        let todo = todos[n - 1];
        if !on_the_list(todo) {
            (due, late)
        } else {
            match stored_date(todo.due_date) {
                None => (due, late),
                Some(date) => if spec_days_from_civil(date) == today {
                    (due + 1, late)
                } else if spec_days_from_civil(date) < today {
                    (due, late + 1)
                } else {
                    (due, late)
                },
            }
        }
    }
}

proof fn lemma_day_counts_bounded(todos: Seq<Todo>, n: int, today: int)
    requires
        0 <= n,
    ensures
        day_counts(todos, n, today).0 + day_counts(todos, n, today).1 <= n,
    decreases n,
{
    if n > 0 {
        lemma_day_counts_bounded(todos, n - 1, today);
    }
}

/// The local day an instant falls on.
pub open spec fn local_day(now: int, zone: int) -> int {
    (now + zone) / (SECONDS_PER_DAY as int)
}

/// Counts the tasks that feed the summary: open, un-archived tasks due on the
/// local day of `now_unix`, and those due before it. A task locked behind a
/// prerequisite is still counted, as the list's own badges count it.
pub fn summary_counts(todos: &[Todo], now_unix: i64, zone_offset_seconds: i64) -> (counts: SummaryCounts)
    requires
        todos@.len() <= i64::MAX,
    ensures
        counts.due_today == day_counts(todos@, todos@.len() as int, local_day(now_unix as int, zone_offset_seconds as int)).0,
        counts.overdue == day_counts(todos@, todos@.len() as int, local_day(now_unix as int, zone_offset_seconds as int)).1,
        counts.my_day is None,
{
    let local = now_unix as i128 + zone_offset_seconds as i128;
    let day: i128 = 86_400;
    let mut wide_today = local / day;
    if local % day < 0 {
        wide_today = wide_today - 1;
    }
    assert(wide_today == local_day(now_unix as int, zone_offset_seconds as int));
    let today = wide_today as i64;
    let mut due_today: i64 = 0;
    let mut overdue: i64 = 0;
    let mut i: usize = 0;
    while i < todos.len()
        invariant
            0 <= i <= todos@.len(),
            today == local_day(now_unix as int, zone_offset_seconds as int),
            todos@.len() <= i64::MAX,
            due_today == day_counts(todos@, i as int, today as int).0,
            overdue == day_counts(todos@, i as int, today as int).1,
        decreases todos@.len() - i,
    {
        proof {
            lemma_day_counts_bounded(todos@, i as int, today as int);
        }
        let todo = &todos[i];
        if todo.status == TodoStatus::Open && todo.archived_at.is_none() {
            let due = match &todo.due_date {
                Some(text) => crate::civil::parse_date(text.as_str()),
                None => None,
            };
            if let Some(date) = due {
                proof {
                    crate::civil::lemma_parsed_date_readable(vstd::utf8::encode_utf8(todo.due_date->0@));
                    crate::recurrence::lemma_readable_days_public(date);
                }
                let due_day = days_from_civil(date);
                if due_day == today {
                    due_today = due_today + 1;
                } else if due_day < today {
                    overdue = overdue + 1;
                }
            }
        }
        i = i + 1;
    }
    SummaryCounts { due_today, overdue, my_day: my_day_count() }
}

/// The "my day" count — the summary's third segment. Its source does not
/// exist yet, so the segment is omitted rather than faked.
pub fn my_day_count() -> (count: Option<i64>)
    ensures
        count is None,
{
    None
}

/// One segment of the body: `<label> <N> 条`.
pub open spec fn segment(label: Seq<char>, count: i64) -> Seq<char> {
    label + seq![' '] + padded_signed(count as int, 1) + " 条"@
}

/// The body's segments: each count above zero, in order.
pub open spec fn segments(counts: SummaryCounts) -> Seq<Seq<char>> {
    (if counts.due_today > 0 {
        seq![segment("今日到期"@, counts.due_today)]
    } else {
        seq![]
    }) + (if counts.overdue > 0 {
        seq![segment("逾期"@, counts.overdue)]
    } else {
        seq![]
    }) + match counts.my_day {
        Some(count) => if count > 0 {
            seq![segment("我的一天"@, count)]
        } else {
            seq![]
        },
        None => seq![],
    }
}

/// Pieces of text joined with a separator.
pub open spec fn joined(pieces: Seq<Seq<char>>, separator: Seq<char>) -> Seq<char>
    decreases pieces.len(),
{
    if pieces.len() == 0 {
        seq![]
    } else if pieces.len() == 1 {
        pieces[0]
    } else {
        joined(pieces.drop_last(), separator) + separator + pieces.last()
    }
}

/// The count body: the non-zero segments joined with ` · `, and a full stop.
pub open spec fn body_text(counts: SummaryCounts) -> Seq<char> {
    joined(segments(counts), " · "@) + "。"@
}

fn push_segment(body: &mut String, first: bool, label: &str, count: i64)
    ensures
        final(body)@ == old(body)@ + (if first {
            seq![]
        } else {
            " · "@
        }) + segment(label@, count),
{
    if !first {
        push_str(body, " · ");
    }
    push_str(body, label);
    push_str(body, " ");
    push_padded_signed(body, count, 1);
    push_str(body, " 条");
    proof {
        reveal_strlit(" ");
        assert(final(body)@ =~= old(body)@ + (if first {
            seq![]
        } else {
            " · "@
        }) + segment(label@, count));
    }
}

/// The count body: each non-zero segment as `<label> <N> 条`, joined with
/// ` · ` and ended with a full stop.
pub fn format_summary_body(counts: &SummaryCounts) -> (body: String)
    ensures
        body@ == body_text(*counts),
{
    let mut body = String::new();
    let mut first = true;
    let ghost mut done: Seq<Seq<char>> = seq![];
    if counts.due_today > 0 {
        push_segment(&mut body, first, "今日到期", counts.due_today);
        proof {
            done = done.push(segment("今日到期"@, counts.due_today));
            assert(body@ =~= joined(done, " · "@));
        }
        first = false;
    }
    if counts.overdue > 0 {
        push_segment(&mut body, first, "逾期", counts.overdue);
        proof {
            let before = done;
            done = done.push(segment("逾期"@, counts.overdue));
            assert(done.drop_last() =~= before);
            assert(body@ =~= joined(done, " · "@));
        }
        first = false;
    }
    if let Some(my_day) = counts.my_day {
        if my_day > 0 {
            push_segment(&mut body, first, "我的一天", my_day);
            proof {
                let before = done;
                done = done.push(segment("我的一天"@, my_day));
                assert(done.drop_last() =~= before);
                assert(body@ =~= joined(done, " · "@));
            }
        }
    }
    proof {
        assert(done =~= segments(*counts));
    }
    push_str(&mut body, "。");
    body
}

/// The synthetic task id the summary's delivery is recorded under.
pub open spec fn summary_todo_id() -> Seq<char> {
    "morning-summary"@
}

/// The delivery key of the summary of a local day.
pub open spec fn summary_key(day: int) -> Seq<char> {
    "summary:"@ + spec_format_iso_date(spec_civil_from_days(day))
}

/// What the summary due at `now` is, as the day and minute it was scheduled
/// for and the counts it reports; `None` when none is due: the switch is off,
/// the time cannot be read, the time has not come round yet today, today's
/// summary already went out, or there is nothing to report.
pub open spec fn summary_due(
    todos: Seq<Todo>,
    delivered: Seq<(String, String)>,
    prefs: MorningSummaryPrefs,
    now: int,
    zone: int,
) -> Option<(int, int, SummaryCounts)> {
    if !prefs.enabled {
        None
    } else {
        match spec_parse_hm(vstd::utf8::encode_utf8(prefs.time@)) {
            None => None,
            Some(minute) => {
                let day = local_day(now, zone);
                let now_minute = ((now + zone) % (SECONDS_PER_DAY as int)) / 60;
                if now_minute < minute {
                    None
                } else if is_delivered(delivered, summary_todo_id(), summary_key(day)) {
                    None
                } else {
                    let (due, late) = day_counts(todos, todos.len() as int, day);
                    let counts = SummaryCounts {
                        due_today: due as i64,
                        overdue: late as i64,
                        my_day: None,
                    };
                    if counts_empty(counts) {
                        None
                    } else {
                        Some((day, minute as int, counts))
                    }
                }
            },
        }
    }
}

/// At most one summary a local day: once the summary due at `now` is
/// recorded, no later moment of the same local day is owed another, whatever
/// the tasks are by then.
pub proof fn lemma_one_summary_a_day(
    todos: Seq<Todo>,
    later_todos: Seq<Todo>,
    delivered: Seq<(String, String)>,
    later_delivered: Seq<(String, String)>,
    prefs: MorningSummaryPrefs,
    now: int,
    later: int,
    zone: int,
)
    requires
        summary_due(todos, delivered, prefs, now, zone) matches Some((day, minute, counts)) && local_day(
            later,
            zone,
        ) == day && is_delivered(later_delivered, summary_todo_id(), summary_key(day)),
    ensures
        summary_due(later_todos, later_delivered, prefs, later, zone) is None,
{
}

/// The summary to raise at `now_unix`, or `None` when none is due.
///
/// Quiet-agnostic: a summary whose time falls in the quiet window is still
/// returned here, and the scheduler holds it on the same gate the reminders
/// ride.
pub fn due_morning_summary(
    todos: &[Todo],
    delivered: &[(String, String)],
    prefs: &MorningSummaryPrefs,
    now_unix: i64,
    zone_offset_seconds: i64,
) -> (summary: Option<MorningSummary>)
    requires
        todos@.len() <= i64::MAX,
        summary_due(todos@, delivered@, *prefs, now_unix as int, zone_offset_seconds as int) matches Some(
            (day, minute, counts),
        ) ==> day * SECONDS_PER_DAY + minute * 60 - zone_offset_seconds >= i64::MIN,
    ensures
        match summary_due(todos@, delivered@, *prefs, now_unix as int, zone_offset_seconds as int) {
            None => summary is None,
            Some((day, minute, counts)) => summary matches Some(s) && {
                &&& s.todo_id@ == summary_todo_id()
                &&& s.reminder_at@ == summary_key(day)
                &&& s.scheduled_unix == day * SECONDS_PER_DAY + minute * 60 - zone_offset_seconds
                &&& s.title@ == "今日待办概览"@
                &&& s.body@ == body_text(counts)
            },
        },
{
    if !prefs.enabled {
        return None;
    }
    // A time the strict reader cannot make sense of leaves the summary
    // unscheduled rather than firing at some guessed hour.
    let scheduled_minute = match parse_hm(prefs.time.as_str()) {
        Some(minute) => minute,
        None => return None,
    };
    let day_length: i128 = 86_400;
    let now_local = now_unix as i128 + zone_offset_seconds as i128;
    let mut wide_day = now_local / day_length;
    let mut seconds = now_local % day_length;
    if seconds < 0 {
        wide_day = wide_day - 1;
        seconds = seconds + day_length;
    }
    assert(wide_day == local_day(now_unix as int, zone_offset_seconds as int));
    assert(seconds == (now_unix + zone_offset_seconds) % (SECONDS_PER_DAY as int));
    let day = wide_day as i64;
    if (seconds / 60) < scheduled_minute as i128 {
        return None;
    }
    proof {
        crate::civil::lemma_civil_from_days_valid(day as int);
    }
    let date = format_iso_date(civil_from_days(day));
    let mut key = String::new();
    push_str(&mut key, "summary:");
    push_str(&mut key, date.as_str());
    let todo_id = String::from_str("morning-summary");
    if was_delivered(delivered, &todo_id, &key) {
        return None;
    }
    let counts = summary_counts(todos, now_unix, zone_offset_seconds);
    proof {
        lemma_day_counts_bounded(todos@, todos@.len() as int, day as int);
    }
    if counts.is_empty() {
        return None;
    }
    Some(
        MorningSummary {
            todo_id,
            reminder_at: key,
            scheduled_unix: (wide_day * day_length + scheduled_minute as i128 * 60 - zone_offset_seconds as i128) as i64,
            title: String::from_str("今日待办概览"),
            body: format_summary_body(&counts),
        },
    )
}

} // verus!
