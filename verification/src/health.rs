//! What a server's own numbers say is worth acting on.
//!
//! Every rule asks about the window rather than the whole run, because an
//! alert that cannot clear is one an operator learns to ignore: a fault that
//! stopped drops out of the window on its own, while the totals stay in the
//! report for whoever has to clean up after it. The rules that compare
//! measured times and failure shares against their thresholds are kept with
//! the floating-point report they read; the ones here read counts alone.

use vstd::prelude::*;

use crate::contracts::{HealthAlert, HealthStatus, LogHealth, RowFaults};
use crate::text::{
    decimal, lemma_text_order_is_total, push_decimal, push_str, text_leq, text_no_later, text_order,
};

verus! {

pub const LOG_UNREACHABLE: &'static str = "sync_log_unreachable";

pub const SYNC_FAILURE_RATE: &'static str = "sync_failure_rate";

pub const SYNC_SLOW: &'static str = "sync_slow";

pub const UNREADABLE_ROWS_GROWING: &'static str = "unreadable_rows_growing";

pub const PARTLY_READ_ROWS_GROWING: &'static str = "partly_read_rows_growing";

/// One thing worth an operator's attention, and how much attention.
#[derive(Clone, Debug)]
pub struct HealthConcern {
    /// A stable name, so a log line or a dashboard can be keyed on it.
    pub name: String,
    pub severity: HealthStatus,
    pub detail: String,
}

/// The worst severity among `concerns`: unhealthy if any is, degraded if
/// there is any concern at all, and fine when there is none.
pub open spec fn worst_of(concerns: Seq<HealthConcern>) -> HealthStatus {
    if exists|i: int| 0 <= i < concerns.len() && #[trigger] concerns[i].severity == HealthStatus::Unhealthy {
        HealthStatus::Unhealthy
    } else if concerns.len() == 0 {
        HealthStatus::Okay
    } else {
        HealthStatus::Degraded
    }
}

/// The worst of what is open, or fine when nothing is.
pub fn overall_status(concerns: &[HealthConcern]) -> (status: HealthStatus)
    ensures
        status == worst_of(concerns@),
{
    let mut i: usize = 0;
    while i < concerns.len()
        invariant
            i <= concerns@.len(),
            forall|k: int| 0 <= k < i ==> concerns@[k].severity != HealthStatus::Unhealthy,
        decreases concerns@.len() - i,
    {
        if concerns[i].severity == HealthStatus::Unhealthy {
            return HealthStatus::Unhealthy;
        }
        i = i + 1;
    }
    if concerns.len() == 0 {
        HealthStatus::Okay
    } else {
        HealthStatus::Degraded
    }
}

/// The concern a log that did not answer raises. Busy is not unwell: the look
/// at the log does not wait for the single connection, so a server in the
/// middle of serving answers "busy".
pub fn unreachable_concern(log: &LogHealth) -> (concern: Option<HealthConcern>)
    ensures
        !log.reachable && !log.busy ==> (concern matches Some(c) && c.name@ == LOG_UNREACHABLE@
            && c.severity == HealthStatus::Unhealthy && c.detail@
            == "the sync log did not answer when it was last looked at"@),
        log.reachable || log.busy ==> concern is None,
{
    if !log.reachable && !log.busy {
        let mut name = String::new();
        push_str(&mut name, LOG_UNREACHABLE);
        let mut detail = String::new();
        push_str(&mut detail, "the sync log did not answer when it was last looked at");
        Some(HealthConcern { name, severity: HealthStatus::Unhealthy, detail })
    } else {
        None
    }
}

/// `"; newest: "` and the newest detail, or nothing when there is none.
pub open spec fn newest_part(newest: Option<String>) -> Seq<char> {
    match newest {
        Some(text) => "; newest: "@ + text@,
        None => Seq::empty(),
    }
}

/// What a growing count of unreadable rows is reported with.
pub open spec fn unreadable_detail(faults: RowFaults) -> Seq<char> {
    decimal(faults.new_in_window as nat) + " more log rows became unreadable ("@ + decimal(
        faults.rows as nat,
    ) + " in all); devices are not receiving them"@ + newest_part(faults.newest)
}

/// What a growing count of partly read rows is reported with.
pub open spec fn partly_read_detail(faults: RowFaults) -> Seq<char> {
    decimal(faults.new_in_window as nat) + " more log rows were served without fields this build cannot name ("@
        + decimal(faults.rows as nat) + " in all); a newer build wrote them"@ + newest_part(
        faults.newest,
    )
}

fn push_newest(text: &mut String, newest: &Option<String>)
    ensures
        final(text)@ == old(text)@ + newest_part(*newest),
{
    if let Some(value) = newest {
        push_str(text, "; newest: ");
        push_str(text, value.as_str());
    }
    proof {
        reveal_strlit("; newest: ");
    }
}

/// The concern rows that became unreadable inside the window raise: devices
/// are not receiving them.
pub fn unreadable_concern(faults: &RowFaults) -> (concern: Option<HealthConcern>)
    ensures
        faults.new_in_window > 0 ==> (concern matches Some(c) && c.name@
            == UNREADABLE_ROWS_GROWING@ && c.severity == HealthStatus::Degraded && c.detail@
            == unreadable_detail(*faults)),
        faults.new_in_window == 0 ==> concern is None,
{
    if faults.new_in_window == 0 {
        return None;
    }
    let mut name = String::new();
    push_str(&mut name, UNREADABLE_ROWS_GROWING);
    let mut detail = String::new();
    push_decimal(&mut detail, faults.new_in_window);
    push_str(&mut detail, " more log rows became unreadable (");
    push_decimal(&mut detail, faults.rows);
    push_str(&mut detail, " in all); devices are not receiving them");
    push_newest(&mut detail, &faults.newest);
    proof {
        reveal_strlit(" more log rows became unreadable (");
        reveal_strlit(" in all); devices are not receiving them");
    }
    Some(HealthConcern { name, severity: HealthStatus::Degraded, detail })
}

/// The concern rows served without fields this build has no name for raise
/// when more turn up inside the window: a newer build wrote them.
pub fn partly_read_concern(faults: &RowFaults) -> (concern: Option<HealthConcern>)
    ensures
        faults.new_in_window > 0 ==> (concern matches Some(c) && c.name@
            == PARTLY_READ_ROWS_GROWING@ && c.severity == HealthStatus::Degraded && c.detail@
            == partly_read_detail(*faults)),
        faults.new_in_window == 0 ==> concern is None,
{
    if faults.new_in_window == 0 {
        return None;
    }
    let mut name = String::new();
    push_str(&mut name, PARTLY_READ_ROWS_GROWING);
    let mut detail = String::new();
    push_decimal(&mut detail, faults.new_in_window);
    push_str(
        &mut detail,
        " more log rows were served without fields this build cannot name (",
    );
    push_decimal(&mut detail, faults.rows);
    push_str(&mut detail, " in all); a newer build wrote them");
    push_newest(&mut detail, &faults.newest);
    proof {
        reveal_strlit(" more log rows were served without fields this build cannot name (");
        reveal_strlit(" in all); a newer build wrote them");
    }
    Some(HealthConcern { name, severity: HealthStatus::Degraded, detail })
}


/// A concern that is open, and since when.
#[derive(Clone, Debug)]
pub struct OpenAlert {
    pub name: String,
    pub since: String,
}

/// When the first entry named `name` opened, if any is.
pub open spec fn since_of(entries: Seq<OpenAlert>, name: Seq<char>) -> Option<Seq<char>>
    decreases entries.len(),
{
    if entries.len() == 0 {
        None
    } else if entries[0].name@ == name {
        Some(entries[0].since@)
    } else {
        since_of(entries.drop_first(), name)
    }
}

/// The names of `concerns`.
pub open spec fn concern_names(concerns: Seq<HealthConcern>) -> Seq<Seq<char>> {
    concerns.map_values(|concern: HealthConcern| concern.name@)
}

/// When the concern named `name` has been open since, after a look at
/// `concerns` at `now`: unchanged while it stays open, `now` when it has just
/// opened, and nothing once it has cleared.
pub open spec fn since_after(old: Seq<OpenAlert>, concerns: Seq<HealthConcern>, now: Seq<char>, name: Seq<char>) -> Option<Seq<char>> {
    if concern_names(concerns).contains(name) {
        match since_of(old, name) {
            Some(since) => Some(since),
            None => Some(now),
        }
    } else {
        None
    }
}

/// Across looks at the server, an alert keeps the moment it opened for as
/// long as its concern lasts, leaves the open set once the concern is gone,
/// and, should the concern come back, opens afresh at that later look.
/// `opened`, `held`, `gone` and `back` are the open sets after each look;
/// each look reconciles the set before it as [`AlertBook::reconcile`] does.
pub proof fn lemma_an_alert_keeps_its_start_then_opens_afresh(
    before: Seq<OpenAlert>,
    opened: Seq<OpenAlert>,
    held: Seq<OpenAlert>,
    gone: Seq<OpenAlert>,
    first: Seq<HealthConcern>,
    second: Seq<HealthConcern>,
    third: Seq<HealthConcern>,
    fourth: Seq<HealthConcern>,
    times: (Seq<char>, Seq<char>, Seq<char>, Seq<char>),
    name: Seq<char>,
)
    requires
        since_of(before, name) is None,
        forall|n: Seq<char>| #[trigger] since_of(opened, n) == since_after(before, first, times.0, n),
        forall|n: Seq<char>| #[trigger] since_of(held, n) == since_after(opened, second, times.1, n),
        forall|n: Seq<char>| #[trigger] since_of(gone, n) == since_after(held, third, times.2, n),
        concern_names(first).contains(name),
        concern_names(second).contains(name),
        !concern_names(third).contains(name),
        concern_names(fourth).contains(name),
    ensures
        since_of(opened, name) == Some(times.0),
        since_of(held, name) == Some(times.0),
        since_of(gone, name) is None,
        since_after(gone, fourth, times.3, name) == Some(times.3),
{
    assert(since_of(opened, name) == since_after(before, first, times.0, name));
    assert(since_of(held, name) == since_after(opened, second, times.1, name));
    assert(since_of(gone, name) == since_after(held, third, times.2, name));
}

/// No two entries share a name.
pub open spec fn distinct_names(entries: Seq<OpenAlert>) -> bool {
    forall|i: int, j: int| 0 <= i < j < entries.len() ==> entries[i].name@ != entries[j].name@
}

/// An entry is found exactly when one carries the name, and with distinct
/// names it is that entry's moment that is found.
proof fn lemma_since_of_finds(entries: Seq<OpenAlert>, name: Seq<char>)
    ensures
        since_of(entries, name) is None <==> (forall|i: int| 0 <= i < entries.len() ==> #[trigger] entries[i].name@ != name),
        distinct_names(entries) ==> forall|i: int| 0 <= i < entries.len() && #[trigger] entries[i].name@ == name ==> since_of(entries, name) == Some(entries[i].since@),
    decreases entries.len(),
{
    if entries.len() > 0 {
        let rest = entries.drop_first();
        lemma_since_of_finds(rest, name);
        assert forall|i: int| 0 < i < entries.len() implies #[trigger] entries[i].name@ == rest[i - 1].name@ by {}
        if since_of(entries, name) is None {
            assert forall|i: int| 0 <= i < entries.len() implies #[trigger] entries[i].name@ != name by {
                if i > 0 {
                    assert(rest[i - 1].name@ != name);
                }
            }
        }
        if (forall|i: int| 0 <= i < entries.len() ==> #[trigger] entries[i].name@ != name) {
            assert forall|i: int| 0 <= i < rest.len() implies #[trigger] rest[i].name@ != name by {
                assert(entries[i + 1].name@ != name);
            }
        }
        if distinct_names(entries) {
            assert(distinct_names(rest)) by {
                assert forall|i: int, j: int| 0 <= i < j < rest.len() implies rest[i].name@ != rest[j].name@ by {
                    assert(entries[i + 1].name@ != entries[j + 1].name@);
                }
            }
            assert forall|i: int| 0 <= i < entries.len() && #[trigger] entries[i].name@ == name implies since_of(entries, name) == Some(entries[i].since@) by {
                if i > 0 {
                    assert(entries[0].name@ != entries[i].name@);
                    assert(rest[i - 1].name@ == name);
                }
            }
        }
    }
}

/// Looking a name up after an entry is added at the end finds an earlier
/// entry first, and the new one otherwise.
proof fn lemma_since_of_push(entries: Seq<OpenAlert>, entry: OpenAlert, name: Seq<char>)
    ensures
        since_of(entries.push(entry), name) == (if since_of(entries, name) is Some {
            since_of(entries, name)
        } else if entry.name@ == name {
            Some(entry.since@)
        } else {
            None
        }),
    decreases entries.len(),
{
    let pushed = entries.push(entry);
    if entries.len() > 0 {
        assert(pushed.drop_first() =~= entries.drop_first().push(entry));
        assert(pushed[0] == entries[0]);
        lemma_since_of_push(entries.drop_first(), entry, name);
        if entries[0].name@ == name {
            assert(since_of(pushed, name) == Some(entries[0].since@));
        } else {
            assert(since_of(pushed, name) == since_of(entries.drop_first().push(entry), name));
            assert(since_of(entries, name) == since_of(entries.drop_first(), name));
        }
    } else {
        assert(entries.push(entry)[0] == entry);
        assert(pushed.drop_first() =~= Seq::<OpenAlert>::empty());
        assert(since_of(pushed.drop_first(), name) is None);
    }
}

/// What one look changed: the alerts as they stand, in the order of the
/// concerns, which concerns have just opened, and which alerts have cleared.
#[derive(Clone, Debug)]
pub struct AlertChanges {
    pub alerts: Vec<HealthAlert>,
    pub opened: Vec<usize>,
    pub cleared: Vec<OpenAlert>,
}

/// Which concerns are open and since when, so an operator can tell a fresh
/// problem from one that has been open all day.
pub struct AlertBook {
    open: Vec<OpenAlert>,
}

impl AlertBook {
    /// The open alerts.
    pub closed spec fn entries(&self) -> Seq<OpenAlert> {
        self.open@
    }

    /// Each open alert is listed once.
    pub closed spec fn wf(&self) -> bool {
        distinct_names(self.open@)
    }

    /// No alert is open.
    pub fn new() -> (book: Self)
        ensures
            book.wf(),
            book.entries().len() == 0,
    {
        AlertBook { open: Vec::new() }
    }

    /// Whether an alert named `name` is open.
    pub fn already_open(&self, name: &str) -> (open: bool)
        ensures
            open == since_of(self.entries(), name@) is Some,
    {
        let mut i: usize = 0;
        proof {
            assert(self.open@.skip(0) =~= self.open@);
        }
        while i < self.open.len()
            invariant
                i <= self.open@.len(),
                since_of(self.open@, name@) == since_of(self.open@.skip(i as int), name@),
            decreases self.open@.len() - i,
        {
            proof {
                assert(self.open@.skip(i as int).drop_first() =~= self.open@.skip(i + 1));
            }
            if crate::sync::same_text(self.open[i].name.as_str(), name) {
                return true;
            }
            i = i + 1;
        }
        false
    }

    /// When the alert named `name` opened, if it is open.
    fn lookup(&self, name: &String) -> (since: Option<String>)
        ensures
            match since {
                Some(text) => since_of(self.entries(), name@) == Some(text@),
                None => since_of(self.entries(), name@) is None,
            },
    {
        let mut i: usize = 0;
        proof {
            assert(self.open@.skip(0) =~= self.open@);
        }
        while i < self.open.len()
            invariant
                i <= self.open@.len(),
                since_of(self.open@, name@) == since_of(self.open@.skip(i as int), name@),
            decreases self.open@.len() - i,
        {
            proof {
                assert(self.open@.skip(i as int).drop_first() =~= self.open@.skip(i + 1));
            }
            if self.open[i].name == *name {
                return Some(self.open[i].since.clone());
            }
            i = i + 1;
        }
        None
    }

    /// Brings the open set in line with what is wrong now, at the moment
    /// `now`, and answers the alerts as they should be reported.
    ///
    /// An alert stays open with the moment it opened for as long as its
    /// concern does; a concern that was not open opens now; an alert whose
    /// concern is gone clears.
    pub fn reconcile(&mut self, concerns: &[HealthConcern], now: &str) -> (changes: AlertChanges)
        requires
            old(self).wf(),
        ensures
            final(self).wf(),
            forall|name: Seq<char>| #[trigger] since_of(final(self).entries(), name) == since_after(
                old(self).entries(),
                concerns@,
                now@,
                name,
            ),
            changes.alerts@.len() == concerns@.len(),
            forall|i: int| 0 <= i < concerns@.len() ==> {
                let alert = #[trigger] changes.alerts@[i];
                &&& alert.name@ == concerns@[i].name@
                &&& alert.severity == concerns@[i].severity
                &&& alert.detail@ == concerns@[i].detail@
                &&& Some(alert.since@) == since_after(
                    old(self).entries(),
                    concerns@,
                    now@,
                    concerns@[i].name@,
                )
            },
            forall|k: int| 0 <= k < changes.opened@.len() ==> {
                let i = #[trigger] changes.opened@[k] as int;
                0 <= i < concerns@.len() && since_of(old(self).entries(), concerns@[i].name@) is None
            },
            forall|k: int| 0 <= k < changes.cleared@.len() ==> {
                let entry = #[trigger] changes.cleared@[k];
                &&& since_of(old(self).entries(), entry.name@) == Some(entry.since@)
                &&& !concern_names(concerns@).contains(entry.name@)
            },
    {
        let ghost old_entries = self.open@;
        let ghost names = concern_names(concerns@);
        let mut kept: Vec<OpenAlert> = Vec::new();
        let mut cleared: Vec<OpenAlert> = Vec::new();
        let mut i: usize = 0;
        proof {
            assert(old_entries.skip(0) =~= old_entries);
        }
        while i < self.open.len()
            invariant
                i <= self.open@.len(),
                self.open@ == old_entries,
                distinct_names(old_entries),
                distinct_names(kept@),
                names == concern_names(concerns@),
                forall|name: Seq<char>| names.contains(name) ==> #[trigger] since_of(old_entries, name) == (if since_of(kept@, name) is Some {
                    since_of(kept@, name)
                } else {
                    since_of(old_entries.skip(i as int), name)
                }),
                forall|name: Seq<char>| #[trigger] since_of(kept@, name) is Some ==> names.contains(name),
                forall|k: int| 0 <= k < kept@.len() ==> exists|m: int| 0 <= m < i && old_entries[m].name@ == #[trigger] kept@[k].name@,
                forall|k: int| 0 <= k < cleared@.len() ==> {
                    let entry = #[trigger] cleared@[k];
                    &&& since_of(old_entries, entry.name@) == Some(entry.since@)
                    &&& !names.contains(entry.name@)
                },
            decreases self.open@.len() - i,
        {
            let entry = OpenAlert {
                name: self.open[i].name.clone(),
                since: self.open[i].since.clone(),
            };
            let ghost e = old_entries[i as int];
            proof {
                assert(old_entries.skip(i as int).drop_first() =~= old_entries.skip(i + 1));
                assert(old_entries.skip(i as int)[0] == e);
                lemma_since_of_finds(old_entries, e.name@);
                lemma_since_of_finds(kept@, e.name@);
                assert forall|k: int| 0 <= k < kept@.len() implies #[trigger] kept@[k].name@ != e.name@ by {
                    let m = choose|m: int| 0 <= m < i && old_entries[m].name@ == kept@[k].name@;
                    assert(old_entries[m].name@ != old_entries[i as int].name@);
                }
            }
            if names_contain(concerns, &entry.name) {
                proof {
                    assert forall|name: Seq<char>| names.contains(name) implies #[trigger] since_of(old_entries, name) == (if since_of(kept@.push(entry), name) is Some {
                        since_of(kept@.push(entry), name)
                    } else {
                        since_of(old_entries.skip(i + 1), name)
                    }) by {
                        lemma_since_of_push(kept@, entry, name);
                        if name == e.name@ {
                            lemma_since_of_finds(old_entries.skip(i as int), name);
                        }
                    }
                    assert forall|name: Seq<char>| #[trigger] since_of(kept@.push(entry), name) is Some implies names.contains(name) by {
                        lemma_since_of_push(kept@, entry, name);
                    }
                    assert(distinct_names(kept@.push(entry))) by {
                        assert forall|a: int, b: int| 0 <= a < b < kept@.push(entry).len() implies kept@.push(entry)[a].name@ != kept@.push(entry)[b].name@ by {
                            if b == kept@.len() {
                                assert(kept@[a].name@ != e.name@);
                            }
                        }
                    }
                    assert forall|k: int| 0 <= k < kept@.push(entry).len() implies exists|m: int| 0 <= m < i + 1 && old_entries[m].name@ == #[trigger] kept@.push(entry)[k].name@ by {
                        if k == kept@.len() {
                            assert(old_entries[i as int].name@ == kept@.push(entry)[k].name@);
                        } else {
                            assert(kept@.push(entry)[k] == kept@[k]);
                        }
                    }
                }
                kept.push(entry);
            } else {
                proof {
                    assert forall|name: Seq<char>| names.contains(name) implies #[trigger] since_of(old_entries, name) == (if since_of(kept@, name) is Some {
                        since_of(kept@, name)
                    } else {
                        since_of(old_entries.skip(i + 1), name)
                    }) by {}
                }
                cleared.push(entry);
            }
            i = i + 1;
        }
        proof {
            assert(old_entries.skip(i as int) =~= Seq::<OpenAlert>::empty());
        }
        self.open = kept;
        let mut alerts: Vec<HealthAlert> = Vec::new();
        let mut opened: Vec<usize> = Vec::new();
        let mut j: usize = 0;
        while j < concerns.len()
            invariant
                j <= concerns@.len(),
                names == concern_names(concerns@),
                distinct_names(self.open@),
                alerts@.len() == j,
                forall|k: int| 0 <= k < j ==> {
                    let alert = #[trigger] alerts@[k];
                    &&& alert.name@ == concerns@[k].name@
                    &&& alert.severity == concerns@[k].severity
                    &&& alert.detail@ == concerns@[k].detail@
                    &&& Some(alert.since@) == since_after(old_entries, concerns@, now@, concerns@[k].name@)
                },
                forall|k: int| 0 <= k < opened@.len() ==> {
                    let i = #[trigger] opened@[k] as int;
                    0 <= i < concerns@.len() && since_of(old_entries, concerns@[i].name@) is None
                },
                forall|name: Seq<char>| #[trigger] since_of(self.open@, name) is Some ==> names.contains(name)
                    && since_of(self.open@, name) == since_after(old_entries, concerns@, now@, name),
                forall|name: Seq<char>| names.contains(name) && #[trigger] since_of(self.open@, name) is None
                    ==> since_of(old_entries, name) is None && !names.take(j as int).contains(name),
            decreases concerns@.len() - j,
        {
            let name = concerns[j].name.clone();
            proof {
                assert(names[j as int] == name@);
                assert(names.contains(name@));
                assert(names.take(j + 1) =~= names.take(j as int).push(name@));
            }
            let since = match self.lookup(&name) {
                Some(since) => since,
                None => {
                    let mut fresh = String::new();
                    push_str(&mut fresh, now);
                    let added = OpenAlert { name: name.clone(), since: fresh.clone() };
                    proof {
                        lemma_since_of_finds(self.open@, name@);
                        assert forall|name2: Seq<char>| #[trigger] since_of(self.open@.push(added), name2) is Some implies names.contains(name2)
                            && since_of(self.open@.push(added), name2) == since_after(old_entries, concerns@, now@, name2) by {
                            lemma_since_of_push(self.open@, added, name2);
                        }
                        assert forall|name2: Seq<char>| names.contains(name2) && #[trigger] since_of(self.open@.push(added), name2) is None
                            implies since_of(old_entries, name2) is None && !names.take(j + 1).contains(name2) by {
                            lemma_since_of_push(self.open@, added, name2);
                        }
                        assert(distinct_names(self.open@.push(added)));
                    }
                    self.open.push(added);
                    opened.push(j);
                    fresh
                },
            };
            proof {
                assert forall|name2: Seq<char>| names.contains(name2) && #[trigger] since_of(self.open@, name2) is None
                    implies since_of(old_entries, name2) is None && !names.take(j + 1).contains(name2) by {
                    if name2 == name@ {
                    }
                }
            }
            alerts.push(
                HealthAlert {
                    name,
                    severity: concerns[j].severity,
                    since,
                    detail: concerns[j].detail.clone(),
                },
            );
            j = j + 1;
        }
        proof {
            assert(names.take(concerns@.len() as int) =~= names);
        }
        AlertChanges { alerts, opened, cleared }
    }
}

/// Whether one of `concerns` is named `name`.
fn names_contain(concerns: &[HealthConcern], name: &String) -> (found: bool)
    ensures
        found == concern_names(concerns@).contains(name@),
{
    let mut i: usize = 0;
    while i < concerns.len()
        invariant
            i <= concerns@.len(),
            forall|k: int| 0 <= k < i ==> concerns@[k].name@ != name@,
        decreases concerns@.len() - i,
    {
        if concerns[i].name == *name {
            assert(concern_names(concerns@)[i as int] == name@);
            return true;
        }
        i = i + 1;
    }
    proof {
        if concern_names(concerns@).contains(name@) {
            let k = choose|k: int| 0 <= k < concern_names(concerns@).len() && concern_names(concerns@)[k] == name@;
            assert(concerns@[k].name@ == name@);
        }
    }
    false
}

/// Whether `sorted` holds the alerts of `alerts` in the order they opened,
/// alerts that opened together kept in the order they came in: `order` names,
/// for each place in `sorted`, the place in `alerts` it was taken from.
pub open spec fn in_order_opened(sorted: Seq<HealthAlert>, alerts: Seq<HealthAlert>, order: Seq<int>) -> bool {
    &&& order.len() == sorted.len()
    &&& sorted.len() == alerts.len()
    &&& forall|k: int| 0 <= k < order.len() ==> 0 <= #[trigger] order[k] < alerts.len() && sorted[k] == alerts[order[k]]
    &&& forall|k: int, l: int| 0 <= k < l < order.len() ==> #[trigger] order[k] != #[trigger] order[l]
    &&& forall|k: int, l: int|
        0 <= k < l < sorted.len() ==> text_leq(#[trigger] sorted[k].since@, #[trigger] sorted[l].since@)
    &&& forall|k: int, l: int|
        0 <= k < l < sorted.len() && (#[trigger] sorted[k]).since@ == (#[trigger] sorted[l]).since@ ==> order[k]
            < order[l]
}

/// The open alerts in the order they opened, the oldest first; alerts that
/// opened at the same moment stay in the order they came in. The moments are
/// RFC 3339 texts of one shape, so their order as texts is their order in time.
pub fn alerts_by_opening(alerts: Vec<HealthAlert>) -> (sorted: Vec<HealthAlert>)
    ensures
        exists|order: Seq<int>| in_order_opened(sorted@, alerts@, order),
{
    proof {
        lemma_text_order_is_total();
    }
    let ghost all = alerts@;
    assert(all.len() == alerts.len());
    let mut rest = alerts;
    let mut sorted: Vec<HealthAlert> = Vec::new();
    let ghost mut order: Seq<int> = seq![];
    let mut i: usize = 0;
    while rest.len() > 0
        invariant
            vstd::relations::total_ordering(text_order()),
            all.len() <= usize::MAX,
            i + rest@.len() == all.len(),
            rest@ == all.skip(i as int),
            order.len() == sorted@.len(),
            sorted@.len() == i,
            forall|k: int| 0 <= k < order.len() ==> 0 <= #[trigger] order[k] < i && sorted@[k] == all[order[k]],
            forall|k: int, l: int| 0 <= k < l < order.len() ==> #[trigger] order[k] != #[trigger] order[l],
            forall|k: int, l: int|
                0 <= k < l < sorted@.len() ==> text_leq(#[trigger] sorted@[k].since@, #[trigger] sorted@[l].since@),
            forall|k: int, l: int|
                0 <= k < l < sorted@.len() && (#[trigger] sorted@[k]).since@ == (#[trigger] sorted@[l]).since@
                    ==> order[k] < order[l],
        decreases rest.len(),
    {
        let ghost rest_before = rest@;
        let item = rest.remove(0);
        proof {
            assert(item == all[i as int]);
            assert(rest@ =~= all.skip(i + 1));
        }
        let mut j: usize = 0;
        while j < sorted.len() && text_no_later(sorted[j].since.as_str(), item.since.as_str())
            invariant
                j <= sorted@.len(),
                forall|k: int| 0 <= k < j ==> text_leq(#[trigger] sorted@[k].since@, item.since@),
            decreases sorted.len() - j,
        {
            j = j + 1;
        }
        let ghost before = sorted@;
        let ghost order_before = order;
        proof {
            assert forall|k: int| j <= k < before.len() implies text_leq(item.since@, (#[trigger] before[k]).since@)
                && before[k].since@ != item.since@ by {
                assert(!text_leq(before[j as int].since@, item.since@));
                assert(text_order()(before[j as int].since@, item.since@) || text_order()(item.since@, before[j as int].since@));
                if k > j {
                    assert(text_order()(before[j as int].since@, before[k].since@));
                }
                if before[k].since@ == item.since@ {
                    assert(text_order()(before[j as int].since@, item.since@));
                }
            }
        }
        sorted.insert(j, item);
        proof {
            order = order.insert(j as int, i as int);
            let after = sorted@;
            assert(after =~= before.insert(j as int, all[i as int]));
            assert forall|k: int| 0 <= k < order.len() implies 0 <= #[trigger] order[k] < i + 1 && after[k] == all[order[k]] by {
                if k > j {
                    assert(order[k] == order_before[k - 1]);
                } else if k < j {
                    assert(order[k] == order_before[k]);
                }
            }
            assert forall|k: int, l: int| 0 <= k < l < order.len() implies #[trigger] order[k] != #[trigger] order[l] by {
                if k != j && l != j {
                    let k0 = if k < j { k } else { k - 1 };
                    let l0 = if l < j { l } else { l - 1 };
                    assert(order[k] == order_before[k0] && order[l] == order_before[l0]);
                } else if k == j {
                    assert(order[l] == order_before[l - 1]);
                } else {
                    assert(order[k] == order_before[k]);
                }
            }
            assert forall|k: int, l: int| 0 <= k < l < after.len() implies text_leq(#[trigger] after[k].since@, #[trigger] after[l].since@) by {
                if l < j {
                    assert(after[k] == before[k] && after[l] == before[l]);
                } else if l == j {
                    assert(after[k] == before[k]);
                } else if k == j {
                    assert(after[l] == before[l - 1]);
                } else if k < j {
                    assert(after[k] == before[k] && after[l] == before[l - 1]);
                    assert(text_order()(before[k].since@, item.since@));
                    assert(text_order()(item.since@, before[l - 1].since@));
                } else {
                    assert(after[k] == before[k - 1] && after[l] == before[l - 1]);
                }
            }
            assert forall|k: int, l: int|
                0 <= k < l < after.len() && (#[trigger] after[k]).since@ == (#[trigger] after[l]).since@ implies order[k]
                < order[l] by {
                if l < j {
                    assert(after[k] == before[k] && after[l] == before[l]);
                    assert(order[k] == order_before[k] && order[l] == order_before[l]);
                } else if l == j {
                    assert(order[k] == order_before[k]);
                } else if k == j {
                    assert(after[l] == before[l - 1]);
                } else if k < j {
                    assert(after[k] == before[k] && after[l] == before[l - 1]);
                    assert(order[k] == order_before[k] && order[l] == order_before[l - 1]);
                } else {
                    assert(after[k] == before[k - 1] && after[l] == before[l - 1]);
                    assert(order[k] == order_before[k - 1] && order[l] == order_before[l - 1]);
                }
            }
        }
        i = i + 1;
    }
    proof {
        assert(in_order_opened(sorted@, all, order));
    }
    sorted
}

} // verus!
