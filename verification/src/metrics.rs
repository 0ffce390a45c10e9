//! What the server keeps about how it has been doing.
//!
//! Two things are recorded, because two different questions get asked about a
//! sync server that has gone wrong. How are requests going — how many, how many
//! the log refused, how long the slowest took. And what has the log been unable
//! to read — which rows, and whether more of them keep turning up.
//!
//! Both are kept over a rolling window as well as for the whole run. The window
//! is what lets an alert clear on its own once the fault stops; the totals are
//! what is left for whoever has to clean up afterwards.
//!
//! Time enters only as numbers the caller reads off its own clock: how long
//! the process has been running, in nanoseconds, when something happened. The
//! window is cut into [`SLOTS`] slices; a slice is named by how many slice
//! lengths have passed since the start, so the name only ever grows, and a
//! slot whose turn comes round again is emptied rather than added to.

use vstd::prelude::*;

use crate::contracts::RowFaults;

verus! {

/// How far back the windowed numbers reach, in nanoseconds: two minutes.
pub const WINDOW_NANOS: u128 = 120_000_000_000;

/// How many slots the window is cut into.
pub const SLOTS: usize = 30;

/// How a request ended, from the server's point of view.
#[derive(Clone, Copy, Debug, PartialEq, Eq, Structural)]
pub enum RequestOutcome {
    Served,
    /// The contract refused what the device sent. Not the server's failure,
    /// and counted apart so one misbehaving device cannot declare the server
    /// down.
    Rejected,
    /// The log could not serve the request.
    Failed,
}

/// The requests that landed in one slice of the window.
#[derive(Clone, Copy, Debug, PartialEq, Eq, Structural)]
pub struct RequestSlot {
    /// Which slice of time this slot holds, or `None` while it holds nothing.
    pub id: Option<u64>,
    pub requests: u64,
    pub failures: u64,
    pub rejections: u64,
    pub micros: u64,
    pub micros_max: u64,
}

/// The empty slot a slice starts from.
pub open spec fn fresh_slot(id: Option<u64>) -> RequestSlot {
    RequestSlot { id, requests: 0, failures: 0, rejections: 0, micros: 0, micros_max: 0 }
}

/// The length of one slice: a thirtieth of the window, never zero.
pub open spec fn slice_nanos(window_nanos: u128) -> u128 {
    if window_nanos / (SLOTS as u128) > 0 {
        window_nanos / (SLOTS as u128)
    } else {
        1
    }
}

/// Which slice `elapsed_nanos` after the start falls in.
pub open spec fn spec_slot_id(window_nanos: u128, elapsed_nanos: u128) -> u64 {
    (elapsed_nanos / slice_nanos(window_nanos)) as u64
}

/// The oldest slice still inside the window.
pub open spec fn spec_oldest_slot_id(window_nanos: u128, elapsed_nanos: u128) -> u64 {
    let id = spec_slot_id(window_nanos, elapsed_nanos);
    if id >= SLOTS - 1 {
        (id - (SLOTS - 1)) as u64
    } else {
        0
    }
}

/// Which slice `elapsed_nanos` after the start falls in.
pub fn slot_id(window_nanos: u128, elapsed_nanos: u128) -> (id: u64)
    ensures
        id == spec_slot_id(window_nanos, elapsed_nanos),
{
    let share = window_nanos / (SLOTS as u128);
    let slice = if share > 0 {
        share
    } else {
        1
    };
    (elapsed_nanos / slice) as u64
}

/// The oldest slice still inside the window.
pub fn oldest_slot_id(window_nanos: u128, elapsed_nanos: u128) -> (id: u64)
    ensures
        id == spec_oldest_slot_id(window_nanos, elapsed_nanos),
{
    slot_id(window_nanos, elapsed_nanos).saturating_sub((SLOTS - 1) as u64)
}

/// `slot` with one more request of `outcome` recorded in slice `id`, emptied
/// first when it still holds an older slice.
pub open spec fn slot_after(slot: RequestSlot, id: u64, outcome: RequestOutcome, micros: u64) -> RequestSlot {
    let base = if slot.id == Some(id) {
        slot
    } else {
        fresh_slot(Some(id))
    };
    RequestSlot {
        id: Some(id),
        requests: (base.requests + 1) as u64,
        failures: (base.failures + if outcome == RequestOutcome::Failed {
            1int
        } else {
            0
        }) as u64,
        rejections: (base.rejections + if outcome == RequestOutcome::Rejected {
            1int
        } else {
            0
        }) as u64,
        micros: (base.micros + micros) as u64,
        micros_max: if base.micros_max >= micros {
            base.micros_max
        } else {
            micros
        },
    }
}

/// The slots after one more request of `outcome`, taking `micros`, recorded
/// `elapsed_nanos` after the start: the slot its slice maps to is brought up to
/// that slice and counts the request.
pub open spec fn recorded_slots(
    slots: Seq<RequestSlot>,
    window_nanos: u128,
    outcome: RequestOutcome,
    elapsed_nanos: u128,
    micros: u64,
) -> Seq<RequestSlot> {
    let id = spec_slot_id(window_nanos, elapsed_nanos);
    let index = (id % (SLOTS as u64)) as int;
    slots.update(index, slot_after(slots[index], id, outcome, micros))
}

/// What the window adds up to at a given moment.
#[derive(Clone, Copy, Debug, PartialEq, Eq, Structural)]
pub struct WindowTotals {
    pub requests: u128,
    pub failures: u128,
    pub rejections: u128,
    pub micros: u128,
    pub micros_max: u64,
    pub requests_total: u64,
    pub failures_total: u64,
}

/// Whether a slot belongs to a slice no older than `oldest`.
pub open spec fn in_window(slot: RequestSlot, oldest: u64) -> bool {
    slot.id matches Some(id) && id >= oldest
}

/// The window's totals over the first `n` slots.
pub open spec fn window_sums(slots: Seq<RequestSlot>, oldest: u64, n: int) -> (int, int, int, int, int)
    decreases n,
{
    if n <= 0 {
        (0, 0, 0, 0, 0)
    } else {
        let (requests, failures, rejections, micros, micros_max) = window_sums(slots, oldest, n - 1);
        let slot = slots[n - 1];
        if in_window(slot, oldest) {
            (
                requests + slot.requests,
                failures + slot.failures,
                rejections + slot.rejections,
                micros + slot.micros,
                if micros_max >= slot.micros_max {
                    micros_max
                } else {
                    slot.micros_max as int
                },
            )
        } else {
            (requests, failures, rejections, micros, micros_max)
        }
    }
}

/// Whether `slots` are [`SLOTS`] slots, each holding a slice that maps to its
/// place and is no later than `latest`, with no more failures or refusals than
/// requests.
pub open spec fn slots_placed(slots: Seq<RequestSlot>, latest: u64) -> bool {
    &&& slots.len() == SLOTS
    &&& forall|i: int|
        0 <= i < SLOTS ==> {
            let slot = #[trigger] slots[i];
            &&& slot.failures <= slot.requests
            &&& slot.rejections <= slot.requests
            &&& slot.id matches Some(id) ==> id % (SLOTS as u64) == i && id <= latest
        }
}

/// What one slot adds to the window's sums.
pub open spec fn slot_share(slot: RequestSlot, oldest: u64) -> (int, int, int, int, int) {
    if in_window(slot, oldest) {
        (slot.requests as int, slot.failures as int, slot.rejections as int, slot.micros as int, slot.micros_max as int)
    } else {
        (0, 0, 0, 0, 0)
    }
}

/// The larger of two numbers.
pub open spec fn larger(a: int, b: int) -> int {
    if a >= b {
        a
    } else {
        b
    }
}

proof fn lemma_sums_after_update(
    slots: Seq<RequestSlot>,
    oldest: u64,
    index: int,
    slot: RequestSlot,
    counted: (int, int, int, int),
    n: int,
)
    requires
        0 <= index < slots.len(),
        0 <= n <= slots.len(),
        in_window(slot, oldest),
        ({
            let old_share = slot_share(slots[index], oldest);
            &&& slot.requests == old_share.0 + counted.0
            &&& slot.failures == old_share.1 + counted.1
            &&& slot.rejections == old_share.2 + counted.2
            &&& slot.micros == old_share.3 + counted.3
            &&& slot.micros_max == larger(old_share.4, counted.3)
        }),
        counted.3 >= 0,
    ensures
        ({
            let before = window_sums(slots, oldest, n);
            let after = window_sums(slots.update(index, slot), oldest, n);
            &&& n <= index ==> after == before
            &&& index < n ==> after == (
                before.0 + counted.0,
                before.1 + counted.1,
                before.2 + counted.2,
                before.3 + counted.3,
                larger(before.4, counted.3),
            )
        }),
    decreases n,
{
    if n > 0 {
        lemma_sums_after_update(slots, oldest, index, slot, counted, n - 1);
        let updated = slots.update(index, slot);
        if n - 1 != index {
            assert(updated[n - 1] == slots[n - 1]);
        }
    }
}

/// A request just recorded is counted by the window read at that moment, on
/// top of everything the window held: one more request, one more failure or
/// refusal when it was one, its time added to the window's time, and the
/// slowest request the slower of the two. This holds of every slot layout
/// the recording keeps, as long as the clock has not gone back past a slice
/// already recorded and the slot's counters have room.
pub proof fn lemma_a_recorded_request_counts_at_once(
    slots: Seq<RequestSlot>,
    window_nanos: u128,
    outcome: RequestOutcome,
    elapsed_nanos: u128,
    micros: u64,
)
    requires
        slots_placed(slots, spec_slot_id(window_nanos, elapsed_nanos)),
        slots[(spec_slot_id(window_nanos, elapsed_nanos) % (SLOTS as u64)) as int].requests < u64::MAX,
        slots[(spec_slot_id(window_nanos, elapsed_nanos) % (SLOTS as u64)) as int].micros + micros
            <= u64::MAX,
    ensures
        ({
            let oldest = spec_oldest_slot_id(window_nanos, elapsed_nanos);
            let before = window_sums(slots, oldest, SLOTS as int);
            let after = window_sums(
                recorded_slots(slots, window_nanos, outcome, elapsed_nanos, micros),
                oldest,
                SLOTS as int,
            );
            after == (
                before.0 + 1,
                before.1 + if outcome == RequestOutcome::Failed {
                    1int
                } else {
                    0
                },
                before.2 + if outcome == RequestOutcome::Rejected {
                    1int
                } else {
                    0
                },
                before.3 + micros,
                larger(before.4, micros as int),
            )
        }),
{
    let id = spec_slot_id(window_nanos, elapsed_nanos);
    let index = (id % (SLOTS as u64)) as int;
    let oldest = spec_oldest_slot_id(window_nanos, elapsed_nanos);
    let old_slot = slots[index];
    let slot = slot_after(old_slot, id, outcome, micros);
    assert(0 <= index < SLOTS);
    match old_slot.id {
        Some(x) => {
            if x != id {
                assert(x % 30 == id % 30);
                assert(x <= id);
                assert(x + 30 <= id) by (nonlinear_arith)
                    requires
                        x % 30 == id % 30,
                        x < id,
                ;
                assert(!in_window(old_slot, oldest));
            }
        },
        None => {},
    }
    let counted = (
        1int,
        if outcome == RequestOutcome::Failed {
            1int
        } else {
            0
        },
        if outcome == RequestOutcome::Rejected {
            1int
        } else {
            0
        },
        micros as int,
    );
    lemma_sums_after_update(slots, oldest, index, slot, counted, SLOTS as int);
}

/// Once the window has moved past the last slice anything was recorded in, it
/// reads nothing: a fault that stopped drops out of the window on its own.
pub proof fn lemma_a_quiet_window_reads_nothing(
    slots: Seq<RequestSlot>,
    latest: u64,
    window_nanos: u128,
    elapsed_nanos: u128,
)
    requires
        slots_placed(slots, latest),
        spec_oldest_slot_id(window_nanos, elapsed_nanos) > latest,
    ensures
        window_sums(slots, spec_oldest_slot_id(window_nanos, elapsed_nanos), SLOTS as int) == (
            0int,
            0int,
            0int,
            0int,
            0int,
        ),
{
    lemma_nothing_in_window(slots, latest, spec_oldest_slot_id(window_nanos, elapsed_nanos), SLOTS as int);
}

/// A window's length after the last request was recorded (and a nanosecond
/// for each slot, which only matters for a window shorter than its slots),
/// at any moment a slot can still be named for, the window reports nothing: the request has been forgotten, while the
/// run's totals, which a read never changes, keep it.
pub proof fn lemma_a_window_later_nothing_is_reported(
    slots: Seq<RequestSlot>,
    window_nanos: u128,
    last_nanos: u128,
    elapsed_nanos: u128,
)
    requires
        slots_placed(slots, spec_slot_id(window_nanos, last_nanos)),
        elapsed_nanos >= last_nanos + window_nanos + SLOTS,
        elapsed_nanos <= u64::MAX,
    ensures
        window_sums(slots, spec_oldest_slot_id(window_nanos, elapsed_nanos), SLOTS as int) == (
            0int,
            0int,
            0int,
            0int,
            0int,
        ),
{
    let slice = slice_nanos(window_nanos) as int;
    assert(30 * slice <= window_nanos + 30) by {
        if window_nanos / 30 > 0 {
            assert(30 * (window_nanos / 30) <= window_nanos) by (nonlinear_arith);
        }
    }
    let last = last_nanos as int;
    let now = elapsed_nanos as int;
    assert(now >= last + 30 * slice);
    assert(now / slice >= last / slice + 30) by (nonlinear_arith)
        requires
            slice >= 1,
            now >= last + 30 * slice,
            last >= 0,
    {
        assert((last + 30 * slice) / slice == last / slice + 30) by {
            vstd::arithmetic::div_mod::lemma_fundamental_div_mod(last, slice);
        }
        vstd::arithmetic::div_mod::lemma_div_is_ordered(last + 30 * slice, now, slice);
    }
    assert(last / slice <= last && now / slice <= now) by (nonlinear_arith)
        requires
            slice >= 1,
            last >= 0,
            now >= 0,
    ;
    assert(spec_slot_id(window_nanos, last_nanos) == last / slice);
    assert(spec_slot_id(window_nanos, elapsed_nanos) == now / slice);
    lemma_a_quiet_window_reads_nothing(slots, spec_slot_id(window_nanos, last_nanos), window_nanos, elapsed_nanos);
}

proof fn lemma_nothing_in_window(slots: Seq<RequestSlot>, latest: u64, oldest: u64, n: int)
    requires
        slots_placed(slots, latest),
        oldest > latest,
        0 <= n <= SLOTS,
    ensures
        window_sums(slots, oldest, n) == (0int, 0int, 0int, 0int, 0int),
    decreases n,
{
    if n > 0 {
        lemma_nothing_in_window(slots, latest, oldest, n - 1);
        assert(!in_window(slots[n - 1], oldest));
    }
}

/// How sync requests have been going.
pub struct RequestMetrics {
    window_nanos: u128,
    slots: Vec<RequestSlot>,
    requests_total: u64,
    failures_total: u64,
}

impl RequestMetrics {
    /// The window the numbers are kept over, in nanoseconds.
    pub closed spec fn window(&self) -> u128 {
        self.window_nanos
    }

    /// The slots, one per slice of the window.
    pub closed spec fn slots(&self) -> Seq<RequestSlot> {
        self.slots@
    }

    /// Every request recorded since the start.
    pub closed spec fn total(&self) -> u64 {
        self.requests_total
    }

    /// Every failed request recorded since the start.
    pub closed spec fn failed_total(&self) -> u64 {
        self.failures_total
    }

    /// There are [`SLOTS`] slots, each holding a slice that maps to its
    /// place, and no count in a slot is more than the requests recorded in
    /// all.
    pub closed spec fn wf(&self) -> bool {
        &&& self.slots@.len() == SLOTS
        &&& self.failures_total <= self.requests_total
        &&& forall|i: int| 0 <= i < SLOTS ==> {
            let slot = #[trigger] self.slots@[i];
            &&& slot.requests <= self.requests_total
            &&& slot.failures <= slot.requests
            &&& slot.rejections <= slot.requests
            &&& slot.id matches Some(id) ==> id % (SLOTS as u64) == i
        }
    }

    /// Nothing recorded yet, over a window of `window_nanos`.
    pub fn new(window_nanos: u128) -> (metrics: Self)
        ensures
            metrics.wf(),
            metrics.window() == window_nanos,
            metrics.slots() == Seq::new(SLOTS as nat, |i: int| fresh_slot(None)),
            metrics.total() == 0,
            metrics.failed_total() == 0,
    {
        let mut slots: Vec<RequestSlot> = Vec::new();
        let mut i: usize = 0;
        while i < SLOTS
            invariant
                i <= SLOTS,
                slots@ == Seq::new(i as nat, |k: int| fresh_slot(None)),
            decreases SLOTS - i,
        {
            slots.push(
                RequestSlot {
                    id: None,
                    requests: 0,
                    failures: 0,
                    rejections: 0,
                    micros: 0,
                    micros_max: 0,
                },
            );
            i = i + 1;
        }
        RequestMetrics { window_nanos, slots, requests_total: 0, failures_total: 0 }
    }

    /// Nothing recorded yet, over the default two-minute window.
    pub fn with_default_window() -> (metrics: Self)
        ensures
            metrics.wf(),
            metrics.window() == WINDOW_NANOS,
            metrics.total() == 0,
            metrics.failed_total() == 0,
    {
        Self::new(WINDOW_NANOS)
    }

    /// Every request recorded since the start.
    pub fn requests_total(&self) -> (total: u64)
        ensures
            total == self.total(),
    {
        self.requests_total
    }

    /// Every failed request recorded since the start.
    pub fn failures_total(&self) -> (total: u64)
        ensures
            total == self.failed_total(),
    {
        self.failures_total
    }

    /// Whether one more request fits the counters: the totals are short of
    /// their limit and the slot's time adds up without overflowing.
    pub open spec fn has_room_for(&self, outcome: RequestOutcome, elapsed_nanos: u128, micros: u64) -> bool {
        let id = spec_slot_id(self.window(), elapsed_nanos);
        let slot = self.slots()[(id % (SLOTS as u64)) as int];
        &&& self.total() < u64::MAX
        &&& slot_after(slot, id, outcome, 0).micros + micros <= u64::MAX
    }

    /// Whether one more request fits the counters.
    pub fn has_room(&self, outcome: RequestOutcome, elapsed_nanos: u128, micros: u64) -> (room: bool)
        requires
            self.wf(),
        ensures
            room == self.has_room_for(outcome, elapsed_nanos, micros),
    {
        let id = slot_id(self.window_nanos, elapsed_nanos);
        let slot = self.slots[(id % (SLOTS as u64)) as usize];
        let base = if slot.id == Some(id) {
            slot.micros
        } else {
            0
        };
        self.requests_total < u64::MAX && base <= u64::MAX - micros
    }

    /// Records one finished request that ended `elapsed_nanos` after the
    /// start and took `micros` microseconds, the wait for the connection and
    /// the durable commit included.
    pub fn record(&mut self, outcome: RequestOutcome, elapsed_nanos: u128, micros: u64)
        requires
            old(self).wf(),
            old(self).has_room_for(outcome, elapsed_nanos, micros),
        ensures
            final(self).wf(),
            final(self).window() == old(self).window(),
            final(self).total() == old(self).total() + 1,
            final(self).failed_total() == old(self).failed_total() + if outcome
                == RequestOutcome::Failed {
                1int
            } else {
                0
            },
            final(self).slots() == recorded_slots(
                old(self).slots(),
                old(self).window(),
                outcome,
                elapsed_nanos,
                micros,
            ),
    {
        let id = slot_id(self.window_nanos, elapsed_nanos);
        let index = (id % (SLOTS as u64)) as usize;
        let old_slot = self.slots[index];
        let base = if old_slot.id == Some(id) {
            old_slot
        } else {
            RequestSlot {
                id: Some(id),
                requests: 0,
                failures: 0,
                rejections: 0,
                micros: 0,
                micros_max: 0,
            }
        };
        let failed = outcome == RequestOutcome::Failed;
        let rejected = outcome == RequestOutcome::Rejected;
        let slot = RequestSlot {
            id: Some(id),
            requests: base.requests + 1,
            failures: if failed {
                base.failures + 1
            } else {
                base.failures
            },
            rejections: if rejected {
                base.rejections + 1
            } else {
                base.rejections
            },
            micros: base.micros + micros,
            micros_max: if base.micros_max >= micros {
                base.micros_max
            } else {
                micros
            },
        };
        self.requests_total = self.requests_total + 1;
        if failed {
            self.failures_total = self.failures_total + 1;
        }
        self.slots.set(index, slot);
    }

    /// What the window adds up to `elapsed_nanos` after the start: the slots
    /// whose slice is no older than the window reaches, summed, and the
    /// slowest of them; with the totals of the whole run beside them.
    pub fn window_totals(&self, elapsed_nanos: u128) -> (totals: WindowTotals)
        requires
            self.wf(),
        ensures
            ({
                let (requests, failures, rejections, micros, micros_max) = window_sums(
                    self.slots(),
                    spec_oldest_slot_id(self.window(), elapsed_nanos),
                    SLOTS as int,
                );
                &&& totals.requests == requests
                &&& totals.failures == failures
                &&& totals.rejections == rejections
                &&& totals.micros == micros
                &&& totals.micros_max == micros_max
            }),
            totals.requests_total == self.total(),
            totals.failures_total == self.failed_total(),
    {
        let oldest = oldest_slot_id(self.window_nanos, elapsed_nanos);
        let mut requests: u128 = 0;
        let mut failures: u128 = 0;
        let mut rejections: u128 = 0;
        let mut micros: u128 = 0;
        let mut micros_max: u64 = 0;
        let mut i: usize = 0;
        while i < SLOTS
            invariant
                self.wf(),
                i <= SLOTS,
                ({
                    let sums = window_sums(self.slots(), oldest, i as int);
                    &&& requests == sums.0
                    &&& failures == sums.1
                    &&& rejections == sums.2
                    &&& micros == sums.3
                    &&& micros_max == sums.4
                }),
                requests <= i * 0xffff_ffff_ffff_ffff,
                failures <= i * 0xffff_ffff_ffff_ffff,
                rejections <= i * 0xffff_ffff_ffff_ffff,
                micros <= i * 0xffff_ffff_ffff_ffff,
            decreases SLOTS - i,
        {
            let slot = self.slots[i];
            let counted = match slot.id {
                Some(id) => id >= oldest,
                None => false,
            };
            if counted {
                requests = requests + slot.requests as u128;
                failures = failures + slot.failures as u128;
                rejections = rejections + slot.rejections as u128;
                micros = micros + slot.micros as u128;
                if slot.micros_max > micros_max {
                    micros_max = slot.micros_max;
                }
            }
            i = i + 1;
        }
        WindowTotals {
            requests,
            failures,
            rejections,
            micros,
            micros_max,
            requests_total: self.requests_total,
            failures_total: self.failures_total,
        }
    }
}

/// The longest wait for the log's one connection seen in one slice.
#[derive(Clone, Copy, Debug, PartialEq, Eq, Structural)]
pub struct WaitSlot {
    pub id: Option<u64>,
    pub micros_max: u64,
}

/// How long requests have been waiting for the log's one connection, kept
/// over the window.
pub struct WaitWindow {
    window_nanos: u128,
    slots: Vec<WaitSlot>,
}

/// The longest wait among the first `n` slots whose slice is no older than
/// `oldest`.
pub open spec fn slowest_in(slots: Seq<WaitSlot>, oldest: u64, n: int) -> u64
    decreases n,
{
    if n <= 0 {
        0
    } else {
        let before = slowest_in(slots, oldest, n - 1);
        let slot = slots[n - 1];
        if slot.id matches Some(id) && id >= oldest && slot.micros_max > before {
            slot.micros_max
        } else {
            before
        }
    }
}

/// `slot` with a wait of `micros` noted in slice `id`.
pub open spec fn wait_slot_after(slot: WaitSlot, id: u64, micros: u64) -> WaitSlot {
    let base = if slot.id == Some(id) {
        slot.micros_max
    } else {
        0
    };
    WaitSlot {
        id: Some(id),
        micros_max: if base >= micros {
            base
        } else {
            micros
        },
    }
}

impl WaitWindow {
    pub closed spec fn window(&self) -> u128 {
        self.window_nanos
    }

    pub closed spec fn slots(&self) -> Seq<WaitSlot> {
        self.slots@
    }

    pub closed spec fn wf(&self) -> bool {
        self.slots@.len() == SLOTS
    }

    /// No wait noted yet, over a window of `window_nanos`.
    pub fn new(window_nanos: u128) -> (waits: Self)
        ensures
            waits.wf(),
            waits.window() == window_nanos,
            waits.slots() == Seq::new(SLOTS as nat, |i: int| WaitSlot { id: None, micros_max: 0 }),
    {
        let mut slots: Vec<WaitSlot> = Vec::new();
        let mut i: usize = 0;
        while i < SLOTS
            invariant
                i <= SLOTS,
                slots@ == Seq::new(i as nat, |k: int| WaitSlot { id: None, micros_max: 0 }),
            decreases SLOTS - i,
        {
            slots.push(WaitSlot { id: None, micros_max: 0 });
            i = i + 1;
        }
        WaitWindow { window_nanos, slots }
    }

    /// Notes that a request waited `micros` before it had the connection,
    /// `elapsed_nanos` after the start.
    pub fn note_wait(&mut self, elapsed_nanos: u128, micros: u64)
        requires
            old(self).wf(),
        ensures
            final(self).wf(),
            final(self).window() == old(self).window(),
            ({
                let id = spec_slot_id(old(self).window(), elapsed_nanos);
                let index = (id % (SLOTS as u64)) as int;
                final(self).slots() == old(self).slots().update(
                    index,
                    wait_slot_after(old(self).slots()[index], id, micros),
                )
            }),
    {
        let id = slot_id(self.window_nanos, elapsed_nanos);
        let index = (id % (SLOTS as u64)) as usize;
        let old_slot = self.slots[index];
        let base = if old_slot.id == Some(id) {
            old_slot.micros_max
        } else {
            0
        };
        let slot = WaitSlot {
            id: Some(id),
            micros_max: if base >= micros {
                base
            } else {
                micros
            },
        };
        self.slots.set(index, slot);
    }

    /// The longest any request in the window waited for the connection, in
    /// microseconds, `elapsed_nanos` after the start.
    pub fn slowest_wait(&self, elapsed_nanos: u128) -> (micros: u64)
        requires
            self.wf(),
        ensures
            micros == slowest_in(
                self.slots(),
                spec_oldest_slot_id(self.window(), elapsed_nanos),
                SLOTS as int,
            ),
    {
        let oldest = oldest_slot_id(self.window_nanos, elapsed_nanos);
        let mut slowest: u64 = 0;
        let mut i: usize = 0;
        while i < SLOTS
            invariant
                self.wf(),
                i <= SLOTS,
                slowest == slowest_in(self.slots(), oldest, i as int),
            decreases SLOTS - i,
        {
            let slot = self.slots[i];
            if let Some(id) = slot.id {
                if id >= oldest && slot.micros_max > slowest {
                    slowest = slot.micros_max;
                }
            }
            i = i + 1;
        }
        slowest
    }
}

/// The rows one kind of fault has been met on.
///
/// A revision per distinct row rather than a count, because counting them
/// once each is the whole point: the same row is read again on every pull from
/// a cursor below it.
pub struct RowFaultLog {
    rows: Vec<i64>,
    reads: u64,
    first_seen_at: Option<String>,
    newest_seen_at: Option<String>,
    newest: Option<String>,
    /// When each distinct row was first met, oldest first, kept only for the
    /// window.
    recent: Vec<u128>,
}

/// `times` without the leading ones more than `window_nanos` before `now`.
pub open spec fn still_recent(times: Seq<u128>, now: u128, window_nanos: u128) -> Seq<u128>
    decreases times.len(),
{
    if times.len() > 0 && now >= times[0] && now - times[0] > window_nanos {
        still_recent(times.drop_first(), now, window_nanos)
    } else {
        times
    }
}

impl RowFaultLog {
    /// The distinct rows met.
    pub closed spec fn rows(&self) -> Seq<i64> {
        self.rows@
    }

    /// How many times a faulty row has been read.
    pub closed spec fn read_count(&self) -> u64 {
        self.reads
    }

    /// When each row still inside the window was first met.
    pub closed spec fn recent(&self) -> Seq<u128> {
        self.recent@
    }

    pub closed spec fn first_seen(&self) -> Option<Seq<char>> {
        match self.first_seen_at {
            Some(text) => Some(text@),
            None => None,
        }
    }

    pub closed spec fn newest_seen(&self) -> Option<Seq<char>> {
        match self.newest_seen_at {
            Some(text) => Some(text@),
            None => None,
        }
    }

    pub closed spec fn newest_detail(&self) -> Option<Seq<char>> {
        match self.newest {
            Some(text) => Some(text@),
            None => None,
        }
    }

    /// No row is listed twice, and there are never more recent rows than rows.
    pub closed spec fn wf(&self) -> bool {
        &&& self.rows@.no_duplicates()
        &&& self.recent@.len() <= self.rows@.len()
    }

    /// Nothing met yet.
    pub fn new() -> (log: Self)
        ensures
            log.wf(),
            log.rows() == Seq::<i64>::empty(),
            log.read_count() == 0,
            log.recent() == Seq::<u128>::empty(),
            log.first_seen() is None,
            log.newest_seen() is None,
            log.newest_detail() is None,
    {
        RowFaultLog {
            rows: Vec::new(),
            reads: 0,
            first_seen_at: None,
            newest_seen_at: None,
            newest: None,
            recent: Vec::new(),
        }
    }

    /// Forgets the rows first met more than `window_nanos` before `now`.
    fn forget_older_than(&mut self, now: u128, window_nanos: u128)
        requires
            old(self).wf(),
        ensures
            final(self).wf(),
            final(self).recent() == still_recent(old(self).recent(), now, window_nanos),
            final(self).rows() == old(self).rows(),
            final(self).read_count() == old(self).read_count(),
            final(self).first_seen() == old(self).first_seen(),
            final(self).newest_seen() == old(self).newest_seen(),
            final(self).newest_detail() == old(self).newest_detail(),
    {
        let mut start: usize = 0;
        assert(self.recent@.skip(0) =~= self.recent@);
        while start < self.recent.len() && now >= self.recent[start] && now - self.recent[start]
            > window_nanos
            invariant
                start <= self.recent@.len(),
                still_recent(self.recent@, now, window_nanos) == still_recent(
                    self.recent@.skip(start as int),
                    now,
                    window_nanos,
                ),
            decreases self.recent@.len() - start,
        {
            proof {
                assert(self.recent@.skip(start as int).drop_first() =~= self.recent@.skip(
                    start + 1,
                ));
            }
            start = start + 1;
        }
        let mut kept: Vec<u128> = Vec::new();
        let mut i: usize = start;
        while i < self.recent.len()
            invariant
                start <= i <= self.recent@.len(),
                kept@ == self.recent@.subrange(start as int, i as int),
            decreases self.recent@.len() - i,
        {
            kept.push(self.recent[i]);
            proof {
                assert(self.recent@.subrange(start as int, i + 1) =~= self.recent@.subrange(
                    start as int,
                    i as int,
                ).push(self.recent@[i as int]));
            }
            i = i + 1;
        }
        proof {
            assert(self.recent@.subrange(start as int, self.recent@.len() as int)
                =~= self.recent@.skip(start as int));
            lemma_still_recent_is_a_suffix(self.recent@, now, window_nanos);
        }
        self.recent = kept;
    }

    /// Notes that row `revision` could not be read as it was meant to be,
    /// `now` nanoseconds after the start, at the wall-clock moment `moment`;
    /// answers whether this is the first time the row was met.
    ///
    /// The answer is what a caller says out loud: a warning per read is noise
    /// that hides the one thing worth knowing, which is that another row has
    /// gone bad.
    pub fn note(&mut self, revision: i64, detail: String, now: u128, window_nanos: u128, moment: String) -> (first: bool)
        requires
            old(self).wf(),
            old(self).read_count() < u64::MAX,
        ensures
            final(self).wf(),
            first == !old(self).rows().contains(revision),
            final(self).read_count() == old(self).read_count() + 1,
            first ==> {
                &&& final(self).rows() == old(self).rows().push(revision)
                &&& final(self).recent() == still_recent(old(self).recent(), now, window_nanos).push(
                    now,
                )
                &&& final(self).first_seen() == (if old(self).first_seen() is Some {
                    old(self).first_seen()
                } else {
                    Some(moment@)
                })
                &&& final(self).newest_seen() == Some(moment@)
                &&& final(self).newest_detail() == Some(detail@)
            },
            !first ==> {
                &&& final(self).rows() == old(self).rows()
                &&& final(self).recent() == still_recent(old(self).recent(), now, window_nanos)
                &&& final(self).first_seen() == old(self).first_seen()
                &&& final(self).newest_seen() == old(self).newest_seen()
                &&& final(self).newest_detail() == old(self).newest_detail()
            },
    {
        self.forget_older_than(now, window_nanos);
        self.reads = self.reads + 1;
        if holds(&self.rows, revision) {
            proof {
                lemma_still_recent_is_a_suffix(old(self).recent@, now, window_nanos);
            }
            return false;
        }
        proof {
            lemma_still_recent_is_a_suffix(old(self).recent@, now, window_nanos);
        }
        self.rows.push(revision);
        if self.first_seen_at.is_none() {
            self.first_seen_at = Some(moment.clone());
        }
        self.newest_seen_at = Some(moment);
        self.newest = Some(detail);
        self.recent.push(now);
        true
    }

    /// What the log has to say, `now` nanoseconds after the start: how many
    /// distinct rows, how many reads, how many rows first met inside the
    /// window, and when and what the first and newest were.
    pub fn summarise(&mut self, now: u128, window_nanos: u128) -> (faults: RowFaults)
        requires
            old(self).wf(),
        ensures
            final(self).wf(),
            final(self).recent() == still_recent(old(self).recent(), now, window_nanos),
            final(self).rows() == old(self).rows(),
            final(self).read_count() == old(self).read_count(),
            faults.rows == old(self).rows().len(),
            faults.reads == old(self).read_count(),
            faults.new_in_window == still_recent(old(self).recent(), now, window_nanos).len(),
            (match faults.first_seen_at {
                Some(text) => Some(text@),
                None => None,
            }) == old(self).first_seen(),
            (match faults.newest_seen_at {
                Some(text) => Some(text@),
                None => None,
            }) == old(self).newest_seen(),
            (match faults.newest {
                Some(text) => Some(text@),
                None => None,
            }) == old(self).newest_detail(),
    {
        self.forget_older_than(now, window_nanos);
        RowFaults {
            rows: self.rows.len() as u64,
            reads: self.reads,
            new_in_window: self.recent.len() as u64,
            first_seen_at: copy_text(&self.first_seen_at),
            newest_seen_at: copy_text(&self.newest_seen_at),
            newest: copy_text(&self.newest),
        }
    }
}

/// Whether `revision` is among `rows`.
fn holds(rows: &Vec<i64>, revision: i64) -> (found: bool)
    ensures
        found == rows@.contains(revision),
{
    let mut i: usize = 0;
    while i < rows.len()
        invariant
            i <= rows@.len(),
            forall|k: int| 0 <= k < i ==> rows@[k] != revision,
        decreases rows@.len() - i,
    {
        if rows[i] == revision {
            assert(rows@[i as int] == revision);
            return true;
        }
        i = i + 1;
    }
    false
}

/// A copy of an optional text.
fn copy_text(text: &Option<String>) -> (copy: Option<String>)
    ensures
        match (copy, *text) {
            (Some(a), Some(b)) => a@ == b@,
            (None, None) => true,
            _ => false,
        },
{
    match text {
        Some(value) => Some(value.clone()),
        None => None,
    }
}

/// Forgetting only drops from the front, so what is left is no longer than
/// what there was.
proof fn lemma_still_recent_is_a_suffix(times: Seq<u128>, now: u128, window_nanos: u128)
    ensures
        still_recent(times, now, window_nanos).len() <= times.len(),
    decreases times.len(),
{
    if times.len() > 0 && now >= times[0] && now - times[0] > window_nanos {
        lemma_still_recent_is_a_suffix(times.drop_first(), now, window_nanos);
    }
}

} // verus!
