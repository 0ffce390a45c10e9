use vstd::prelude::*;

pub mod backup;
pub mod civil;
pub mod client_store;
pub mod contracts;
pub mod dependency;
pub mod habit;
pub mod health;
pub mod holidays;
pub mod ics;
pub mod lunar;
pub mod metrics;
pub mod notification;
pub mod quiet;
pub mod recurrence;
pub mod reminder;
pub mod renag;
pub mod scheduler;
pub mod sky;
pub mod summary;
pub mod sync;
pub mod text;

verus! {

/// The next revision after `current`, or `None` when the counter is spent.
pub fn next_sync_cursor(current: u32) -> (next: Option<u32>)
    ensures
        next == (if current < u32::MAX { Some((current + 1) as u32) } else { None::<u32> }),
{
    current.checked_add(1)
}

} // verus!
