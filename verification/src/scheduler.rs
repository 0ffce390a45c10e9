//! One pass of the desktop reminder scheduler.
//!
//! The shell owns the thread, the clock, the toast and the database; what a
//! pass decides is here: from the stored tasks and the delivery records, which
//! notifications go out, in what order, with what words, and which delivery
//! record each one leaves so that a later pass, or a restart, does not raise it
//! again. Due reminders come first, then the overdue nags when the user has
//! them switched on.

use vstd::prelude::*;

use crate::contracts::Todo;
use crate::notification::{
    notification_text, renag_notification_text, spec_notification_text,
    spec_renag_notification_text,
};
use crate::reminder::{due_of_tasks, due_reminders, DueReminder};
use crate::renag::{due_renags, nags_match, RenagDue};

verus! {

/// How often, in seconds, the shell runs a pass: a reminder goes out within
/// this of its moment while the app runs.
pub const POLL_INTERVAL_SECONDS: u64 = 30;

/// How far past its moment a reminder may go out before it is called overdue:
/// wider than one pass, so a reminder raised a tick late still reads as on
/// time, while one missed while the app was closed reads as overdue.
pub const OVERDUE_GRACE_SECONDS: i64 = 60;

/// One notification a pass raises, and the delivery record it leaves: the
/// task's id with `delivery_key`. The record is written whether or not the
/// toast could be shown.
pub struct PollNotice {
    /// The task the notification is about.
    pub todo_id: String,
    /// What the delivery record holds beside the task's id.
    pub delivery_key: String,
    /// The notification's headline.
    pub title: String,
    /// The notification's body.
    pub body: String,
}

/// A notice as plain text: task id, delivery key, headline, body.
pub open spec fn notice_view(notice: PollNotice) -> (Seq<char>, Seq<char>, Seq<char>, Seq<char>) {
    (notice.todo_id@, notice.delivery_key@, notice.title@, notice.body@)
}

/// The notice a due reminder becomes: recorded under its own instant.
pub open spec fn reminder_notice(reminder: DueReminder) -> (Seq<char>, Seq<char>, Seq<char>, Seq<char>) {
    (
        reminder.todo_id@,
        reminder.reminder_at@,
        spec_notification_text(reminder).0,
        spec_notification_text(reminder).1,
    )
}

/// The notice an overdue nag becomes: recorded under its synthetic key.
pub open spec fn renag_notice(renag: RenagDue) -> (Seq<char>, Seq<char>, Seq<char>, Seq<char>) {
    (
        renag.todo_id@,
        renag.reminder_at@,
        spec_renag_notification_text(renag).0,
        spec_renag_notification_text(renag).1,
    )
}

/// What one pass raises at `now_unix`, in order: every due reminder (with
/// [`OVERDUE_GRACE_SECONDS`] of grace), then, when `renag_enabled`, every
/// overdue nag, read on UTC days.
pub fn poll_notices(
    todos: &[Todo],
    delivered: &[(String, String)],
    now_unix: i64,
    renag_enabled: bool,
) -> (notices: Vec<PollNotice>)
    ensures
        ({
            let due = due_of_tasks(
                todos@,
                todos@.len() as int,
                delivered@,
                now_unix as int,
                OVERDUE_GRACE_SECONDS as int,
            );
            &&& due.len() <= notices@.len()
            &&& forall|k: int|
                0 <= k < due.len() ==> notice_view(#[trigger] notices@[k]) == reminder_notice(due[k])
            &&& !renag_enabled ==> notices@.len() == due.len()
            &&& renag_enabled ==> exists|nags: Seq<RenagDue>|
                {
                    &&& nags_match(nags, todos@, todos@.len() as int, delivered@, now_unix as int, 0)
                    &&& notices@.len() == due.len() + nags.len()
                    &&& forall|k: int|
                        0 <= k < nags.len() ==> notice_view(#[trigger] notices@[due.len() + k])
                            == renag_notice(nags[k])
                }
        }),
{
    let reminders = due_reminders(todos, delivered, now_unix, OVERDUE_GRACE_SECONDS);
    let mut notices: Vec<PollNotice> = Vec::new();
    let mut i: usize = 0;
    while i < reminders.len()
        invariant
            i <= reminders@.len(),
            notices@.len() == i,
            forall|k: int| 0 <= k < i ==> notice_view(#[trigger] notices@[k]) == reminder_notice(reminders@[k]),
        decreases reminders.len() - i,
    {
        let reminder = &reminders[i];
        let (title, body) = notification_text(reminder);
        notices.push(
            PollNotice {
                todo_id: reminder.todo_id.clone(),
                delivery_key: reminder.reminder_at.clone(),
                title,
                body,
            },
        );
        i = i + 1;
    }
    if !renag_enabled {
        return notices;
    }
    let nags = due_renags(todos, delivered, now_unix, 0);
    let start: usize = notices.len();
    let mut j: usize = 0;
    while j < nags.len()
        invariant
            j <= nags@.len(),
            start == reminders@.len(),
            notices@.len() == start + j,
            forall|k: int| 0 <= k < start ==> notice_view(#[trigger] notices@[k]) == reminder_notice(reminders@[k]),
            forall|k: int| 0 <= k < j ==> notice_view(#[trigger] notices@[start + k]) == renag_notice(nags@[k]),
        decreases nags.len() - j,
    {
        let nag = &nags[j];
        let (title, body) = renag_notification_text(nag);
        notices.push(
            PollNotice { todo_id: nag.todo_id.clone(), delivery_key: nag.reminder_at.clone(), title, body },
        );
        proof {
            assert(notices@[start + j as int] == notices@.last());
        }
        j = j + 1;
    }
    notices
}

} // verus!
