//! The do-not-disturb window and how it reshapes a poll's deliveries.
//!
//! The scheduler works out which reminders and renags have come due, and hands
//! their instants here with the current instant; it gets back a plan that says
//! which to raise one notification each, which to fold into a single "the
//! quiet hours are over" summary, and which to hold for a later poll. A held
//! reminder is simply one the scheduler did not record as delivered, so a later
//! poll finds it due all over again: nothing here is a queue, and nothing is
//! ever dropped ([`lemma_outside_the_window_nothing_is_lost`]).

use vstd::prelude::*;
use vstd::string::StringSliceAdditionalSpecFns;

use crate::text::{digits_value, parse_digits, read_digits};

verus! {

/// Seconds in a day.
pub const SECONDS_PER_DAY: i64 = 86_400;

/// A do-not-disturb window, as two minutes of the local day.
///
/// The start is inclusive and the end exclusive (see [`QuietWindow::contains`]);
/// a window that crosses midnight (`start > end`, the common 22:00–08:00 case)
/// is the union of the evening and the small hours. The two ends are always
/// different minutes of the day.
#[derive(Clone, Copy, Debug, PartialEq, Eq, Structural)]
pub struct QuietWindow {
    start_min: i64,
    end_min: i64,
}

impl QuietWindow {
    #[verifier::type_invariant]
    spec fn well_formed(self) -> bool {
        &&& 0 <= self.start_min < 1440
        &&& 0 <= self.end_min < 1440
        &&& self.start_min != self.end_min
    }

    pub closed spec fn start(self) -> int {
        self.start_min as int
    }

    pub closed spec fn end(self) -> int {
        self.end_min as int
    }

    /// Whether a local minute of the day falls inside the window.
    pub open spec fn holds(self, minute_of_day: int) -> bool {
        if self.start() < self.end() {
            self.start() <= minute_of_day < self.end()
        } else {
            minute_of_day >= self.start() || minute_of_day < self.end()
        }
    }

    /// Builds a window from the two `"HH:mm"` strings the settings store
    /// holds, or `None` when either will not parse or the two are equal.
    ///
    /// An equal start and end names no span of time, so it silences nothing:
    /// returning `None` is what makes the scheduler fail open on a
    /// misconfigured window rather than treat "22:00 to 22:00" as the whole day.
    pub fn parse(start: &str, end: &str) -> (window: Option<QuietWindow>)
        ensures
            match (spec_parse_hm(start.spec_bytes()), spec_parse_hm(end.spec_bytes())) {
                (Some(s), Some(e)) => if s != e {
                    window matches Some(w) && w.start() == s && w.end() == e
                } else {
                    window is None
                },
                _ => window is None,
            },
    {
        let start_min = match parse_hm(start) {
            Some(minute) => minute,
            None => return None,
        };
        let end_min = match parse_hm(end) {
            Some(minute) => minute,
            None => return None,
        };
        if start_min == end_min {
            return None;
        }
        Some(QuietWindow { start_min, end_min })
    }

    /// The minute of the day the window starts on.
    pub fn start_minute(&self) -> (minute: i64)
        ensures
            minute == self.start(),
            0 <= minute < 1440,
    {
        proof {
            use_type_invariant(self);
        }
        self.start_min
    }

    /// The minute of the day the window ends on, which is outside it.
    pub fn end_minute(&self) -> (minute: i64)
        ensures
            minute == self.end(),
            0 <= minute < 1440,
    {
        proof {
            use_type_invariant(self);
        }
        self.end_min
    }

    /// Whether a local minute-of-day falls inside the window.
    ///
    /// Start inclusive, end exclusive: at exactly the start minute the device
    /// is silent, and at exactly the end minute it is not.
    pub fn contains(&self, minute_of_day: i64) -> (inside: bool)
        ensures
            inside == self.holds(minute_of_day as int),
    {
        if self.start_min < self.end_min {
            minute_of_day >= self.start_min && minute_of_day < self.end_min
        } else {
            minute_of_day >= self.start_min || minute_of_day < self.end_min
        }
    }
}

/// The minute of the day a window end is written as: exactly `HH:mm`, hours
/// 0–23 and minutes 0–59.
pub open spec fn spec_parse_hm(bytes: Seq<u8>) -> Option<i64> {
    if bytes.len() == 5 && bytes[2] == 58 && parse_digits(bytes.subrange(0, 2)) is Some
        && parse_digits(bytes.subrange(3, 5)) is Some {
        let hours = digits_value(bytes.subrange(0, 2)) as int;
        let minutes = digits_value(bytes.subrange(3, 5)) as int;
        if hours <= 23 && minutes <= 59 {
            Some((hours * 60 + minutes) as i64)
        } else {
            None
        }
    } else {
        None
    }
}

/// Parses `"HH:mm"` into a minute of the day (0–1439), or `None` for anything
/// the time input would not produce.
///
/// Strict: a settings file edited by hand into `"9:00"` or `"24:00"` reads as
/// `None`, which the caller turns into a fail-open (no window) rather than a
/// wrong window.
pub fn parse_hm(value: &str) -> (minute: Option<i64>)
    ensures
        minute == spec_parse_hm(value.spec_bytes()),
        minute matches Some(m) ==> 0 <= m < 1440,
{
    let bytes = value.as_bytes();
    if bytes.len() != 5 || bytes[2] != 58 {
        return None;
    }
    let hours = match read_digits(bytes, 0, 2) {
        Some(hours) => hours,
        None => return None,
    };
    let minutes = match read_digits(bytes, 3, 5) {
        Some(minutes) => minutes,
        None => return None,
    };
    proof {
        crate::text::lemma_digits_value_bound(bytes@.subrange(0, 2));
        crate::text::lemma_digits_value_bound(bytes@.subrange(3, 5));
        reveal_with_fuel(crate::text::pow10, 3);
    }
    if hours > 23 || minutes > 59 {
        return None;
    }
    Some(hours as i64 * 60 + minutes as i64)
}

/// The local minute of the day an instant falls on, `zone_offset_seconds`
/// east of UTC.
pub open spec fn spec_local_minute_of_day(unix: int, zone_offset_seconds: int) -> int {
    ((unix + zone_offset_seconds) % (SECONDS_PER_DAY as int)) / 60
}

/// The local minute-of-day a Unix instant falls on, for a device
/// `zone_offset_seconds` east of UTC.
///
/// Passing 0 reads the minute in UTC.
pub fn local_minute_of_day(unix: i64, zone_offset_seconds: i64) -> (minute: i64)
    requires
        i64::MIN <= unix + zone_offset_seconds <= i64::MAX,
    ensures
        minute == spec_local_minute_of_day(unix as int, zone_offset_seconds as int),
        0 <= minute < 1440,
{
    let local = unix + zone_offset_seconds;
    let mut seconds = local % SECONDS_PER_DAY;
    if seconds < 0 {
        seconds = seconds + SECONDS_PER_DAY;
    }
    seconds / 60
}

/// What a poll should do with the reminders that have come due, once the
/// quiet window is taken into account.
///
/// The two lists carry indices into the caller's own slice of due instants,
/// in ascending order. An index in neither list is held: the caller raises
/// nothing and records nothing for it, leaving it for a later poll.
#[derive(Clone, Debug, Default, PartialEq, Eq)]
pub struct QuietPlan {
    /// Items to raise one notification each.
    pub deliver: Vec<usize>,
    /// Items to fold into a single summary notification: empty, or two or
    /// more.
    pub summarize: Vec<usize>,
}

/// Whether the moment of a due item fell inside the window.
pub open spec fn fell_inside(window: QuietWindow, instant: i64, zone_offset_seconds: i64) -> bool {
    window.holds(spec_local_minute_of_day(instant as int, zone_offset_seconds as int))
}

/// The indices below `n`, in order, whose moment fell inside the window
/// (`held`) or outside it (`!held`).
pub open spec fn split_indices(
    due: Seq<i64>,
    window: QuietWindow,
    zone_offset_seconds: i64,
    held: bool,
    n: nat,
) -> Seq<usize>
    decreases n,
{
    if n == 0 {
        seq![]
    } else {
        let earlier = split_indices(due, window, zone_offset_seconds, held, (n - 1) as nat);
        if fell_inside(window, due[n - 1], zone_offset_seconds) == held {
            earlier.push((n - 1) as usize)
        } else {
            earlier
        }
    }
}

/// Every index below `n`, in order.
pub open spec fn all_indices(n: nat) -> Seq<usize> {
    Seq::new(n, |i: int| i as usize)
}

/// The plan [`plan_quiet_delivery`] makes.
pub open spec fn spec_quiet_plan(
    due: Seq<i64>,
    window: Option<QuietWindow>,
    now_unix: i64,
    zone_offset_seconds: i64,
) -> (Seq<usize>, Seq<usize>) {
    match window {
        None => (all_indices(due.len()), seq![]),
        Some(w) => if fell_inside(w, now_unix, zone_offset_seconds) {
            (seq![], seq![])
        } else {
            let held = split_indices(due, w, zone_offset_seconds, true, due.len());
            let fresh = split_indices(due, w, zone_offset_seconds, false, due.len());
            if held.len() >= 2 {
                (fresh, held)
            } else {
                (all_indices(due.len()), seq![])
            }
        },
    }
}

/// Splits the due items into deliver-now, fold-into-summary, and hold,
/// applying the quiet window.
///
/// With no window (quiet hours off, or a window that will not parse) nothing
/// is ever held. Inside the window right now, every due item is held. Outside
/// it, an item whose own moment fell inside the window is part of the
/// held-back batch — folded into the summary when the batch runs to two or
/// more — while the rest go out one at a time; a lone held item is delivered
/// as itself, since a summary of one says less than the thing itself.
pub fn plan_quiet_delivery(
    due_instants: &[i64],
    window: Option<QuietWindow>,
    now_unix: i64,
    zone_offset_seconds: i64,
) -> (plan: QuietPlan)
    requires
        i64::MIN <= now_unix + zone_offset_seconds <= i64::MAX,
        forall|i: int|
            0 <= i < due_instants@.len() ==> i64::MIN <= #[trigger] due_instants@[i]
                + zone_offset_seconds <= i64::MAX,
    ensures
        (plan.deliver@, plan.summarize@) == spec_quiet_plan(
            due_instants@,
            window,
            now_unix,
            zone_offset_seconds,
        ),
{
    let n = due_instants.len();
    let w = match window {
        None => {
            return QuietPlan { deliver: every_index(n), summarize: Vec::new() };
        },
        Some(w) => w,
    };
    if w.contains(local_minute_of_day(now_unix, zone_offset_seconds)) {
        return QuietPlan { deliver: Vec::new(), summarize: Vec::new() };
    }
    let mut held: Vec<usize> = Vec::new();
    let mut fresh: Vec<usize> = Vec::new();
    let mut index: usize = 0;
    while index < n
        invariant
            n == due_instants@.len(),
            0 <= index <= n,
            forall|i: int|
                0 <= i < due_instants@.len() ==> i64::MIN <= #[trigger] due_instants@[i]
                    + zone_offset_seconds <= i64::MAX,
            held@ == split_indices(due_instants@, w, zone_offset_seconds, true, index as nat),
            fresh@ == split_indices(due_instants@, w, zone_offset_seconds, false, index as nat),
        decreases n - index,
    {
        let instant = due_instants[index];
        if w.contains(local_minute_of_day(instant, zone_offset_seconds)) {
            held.push(index);
        } else {
            fresh.push(index);
        }
        index = index + 1;
    }
    if held.len() >= 2 {
        QuietPlan { deliver: fresh, summarize: held }
    } else {
        QuietPlan { deliver: every_index(n), summarize: Vec::new() }
    }
}

/// `0, 1, …, n - 1`.
fn every_index(n: usize) -> (indices: Vec<usize>)
    ensures
        indices@ == all_indices(n as nat),
{
    let mut indices: Vec<usize> = Vec::new();
    let mut i: usize = 0;
    while i < n
        invariant
            0 <= i <= n,
            indices@ == all_indices(i as nat),
        decreases n - i,
    {
        indices.push(i);
        i = i + 1;
        assert(indices@ =~= all_indices(i as nat));
    }
    indices
}

proof fn lemma_split_members(
    due: Seq<i64>,
    window: QuietWindow,
    zone_offset_seconds: i64,
    held: bool,
    n: nat,
)
    requires
        n <= usize::MAX,
    ensures
        forall|k: int|
            0 <= k < split_indices(due, window, zone_offset_seconds, held, n).len() ==> {
                let i = #[trigger] split_indices(due, window, zone_offset_seconds, held, n)[k];
                &&& i < n
                &&& fell_inside(window, due[i as int], zone_offset_seconds) == held
            },
        forall|i: int|
            0 <= i < n && fell_inside(window, due[i], zone_offset_seconds) == held ==> #[trigger] split_indices(
                due,
                window,
                zone_offset_seconds,
                held,
                n,
            ).contains(i as usize),
    decreases n,
{
    if n > 0 {
        lemma_split_members(due, window, zone_offset_seconds, held, (n - 1) as nat);
        let earlier = split_indices(due, window, zone_offset_seconds, held, (n - 1) as nat);
        let now = split_indices(due, window, zone_offset_seconds, held, n);
        let last_matches = fell_inside(window, due[n - 1], zone_offset_seconds) == held;
        if last_matches {
            assert(now == earlier.push((n - 1) as usize));
        } else {
            assert(now == earlier);
        }
        assert forall|k: int| 0 <= k < now.len() implies {
            let i = #[trigger] now[k];
            &&& i < n
            &&& fell_inside(window, due[i as int], zone_offset_seconds) == held
        } by {
            if k < earlier.len() {
                assert(now[k] == earlier[k]);
            }
        }
        assert forall|i: int|
            0 <= i < n && fell_inside(window, due[i], zone_offset_seconds) == held implies now.contains(
            i as usize) by {
            if i < n - 1 {
                assert(earlier.contains(i as usize));
                let k = choose|k: int| 0 <= k < earlier.len() && earlier[k] == i as usize;
                assert(now[k] == earlier[k]);
            } else {
                assert(now[now.len() - 1] == i as usize);
            }
        }
    }
}

/// A reminder is never lost: outside the window every due item is either
/// delivered or folded into the summary, and with no window every one is
/// delivered. Inside the window the plan is empty, so every item is held for
/// a later poll rather than recorded.
pub proof fn lemma_outside_the_window_nothing_is_lost(
    due: Seq<i64>,
    window: Option<QuietWindow>,
    now_unix: i64,
    zone_offset_seconds: i64,
    i: int,
)
    requires
        0 <= i < due.len(),
        due.len() <= usize::MAX,
    ensures
        ({
            let plan = spec_quiet_plan(due, window, now_unix, zone_offset_seconds);
            match window {
                Some(w) if fell_inside(w, now_unix, zone_offset_seconds) => plan.0.len() == 0
                    && plan.1.len() == 0,
                _ => plan.0.contains(i as usize) || plan.1.contains(i as usize),
            }
        }),
        ({
            let plan = spec_quiet_plan(due, window, now_unix, zone_offset_seconds);
            plan.1.len() == 0 || plan.1.len() >= 2
        }),
{
    let n = due.len();
    match window {
        None => {
            assert(all_indices(n)[i] == i as usize);
        },
        Some(w) => {
            if !fell_inside(w, now_unix, zone_offset_seconds) {
                lemma_split_members(due, w, zone_offset_seconds, true, n);
                lemma_split_members(due, w, zone_offset_seconds, false, n);
                assert(all_indices(n)[i] == i as usize);
            }
        },
    }
}

} // verus!
