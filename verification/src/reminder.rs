//! Deciding which reminders have come due — the pure half of the native
//! reminder scheduler.
//!
//! The scheduler reads the stored todos and the reminders it has already
//! delivered, hands them here with the current instant, and gets back the
//! reminders to raise now:
//!
//! * a reminder that has arrived is raised, and only once — the delivery set is
//!   what a later poll, or a restart, reads to know it already went out;
//! * a reminder missed while the app was closed is raised and marked overdue;
//! * a task that is completed, archived, or still locked behind a prerequisite
//!   raises nothing.

use vstd::prelude::*;

use crate::contracts::{Reminder, Todo, TodoStatus};
use crate::dependency::{dependency_lock, satisfied_count};
use crate::ics::{instant_unix_seconds, spec_parse_instant};
use crate::text::ids_view;
use vstd::string::StringSliceAdditionalSpecFns;

verus! {

/// Whether `(todo_id, key)` is among the deliveries already made.
pub open spec fn is_delivered(delivered: Seq<(String, String)>, todo_id: Seq<char>, key: Seq<char>) -> bool {
    exists|i: int| 0 <= i < delivered.len() && (#[trigger] delivered[i]).0@ == todo_id && delivered[i].1@ == key
}

/// Whether `(todo_id, key)` is among the deliveries already made.
pub fn was_delivered(delivered: &[(String, String)], todo_id: &String, key: &String) -> (found: bool)
    ensures
        found == is_delivered(delivered@, todo_id@, key@),
{
    let mut i: usize = 0;
    while i < delivered.len()
        invariant
            0 <= i <= delivered@.len(),
            forall|k: int|
                0 <= k < i ==> !((#[trigger] delivered@[k]).0@ == todo_id@ && delivered@[k].1@
                    == key@),
        decreases delivered@.len() - i,
    {
        if delivered[i].0 == *todo_id && delivered[i].1 == *key {
            return true;
        }
        i = i + 1;
    }
    false
}

/// The ids of every task this device holds.
pub open spec fn known_ids(todos: Seq<Todo>) -> Seq<Seq<char>>
    decreases todos.len(),
{
    if todos.len() == 0 {
        seq![]
    } else {
        known_ids(todos.drop_last()).push(todos.last().id@)
    }
}

/// The ids of the tasks that are done.
pub open spec fn completed_ids(todos: Seq<Todo>) -> Seq<Seq<char>>
    decreases todos.len(),
{
    if todos.len() == 0 {
        seq![]
    } else if todos.last().status == TodoStatus::Completed {
        completed_ids(todos.drop_last()).push(todos.last().id@)
    } else {
        completed_ids(todos.drop_last())
    }
}

/// Whether a task is held behind a prerequisite that is known here and not
/// done.
pub open spec fn is_locked(todos: Seq<Todo>, todo: Todo) -> bool {
    satisfied_count(ids_view(todo.depends_on@), known_ids(todos), completed_ids(todos))
        < todo.depends_on@.len()
}

/// Whether a task may raise anything at all: open, not archived, and not
/// locked.
pub open spec fn may_raise(todos: Seq<Todo>, todo: Todo) -> bool {
    &&& todo.status == TodoStatus::Open
    &&& todo.archived_at is None
    &&& !is_locked(todos, todo)
}

/// The ids of every task, and of those that are done, as lists.
pub fn lock_context(todos: &[Todo]) -> (ids: (Vec<String>, Vec<String>))
    ensures
        ids_view(ids.0@) == known_ids(todos@),
        ids_view(ids.1@) == completed_ids(todos@),
{
    let mut known: Vec<String> = Vec::new();
    let mut completed: Vec<String> = Vec::new();
    let mut i: usize = 0;
    while i < todos.len()
        invariant
            0 <= i <= todos@.len(),
            ids_view(known@) == known_ids(todos@.subrange(0, i as int)),
            ids_view(completed@) == completed_ids(todos@.subrange(0, i as int)),
        decreases todos@.len() - i,
    {
        proof {
            assert(todos@.subrange(0, i + 1).drop_last() =~= todos@.subrange(0, i as int));
        }
        known.push(todos[i].id.clone());
        if todos[i].status == TodoStatus::Completed {
            completed.push(todos[i].id.clone());
        }
        proof {
            assert(ids_view(known@) =~= known_ids(todos@.subrange(0, i + 1)));
            assert(ids_view(completed@) =~= completed_ids(todos@.subrange(0, i + 1)));
        }
        i = i + 1;
    }
    proof {
        assert(todos@.subrange(0, todos@.len() as int) =~= todos@);
    }
    (known, completed)
}

/// One reminder that has come due and should be raised now.
#[derive(Clone, Debug)]
pub struct DueReminder {
    /// The task the reminder belongs to.
    pub todo_id: String,
    /// The task's title, shown as the notification's headline.
    pub title: String,
    /// The task's due date, when it has one.
    pub due_date: Option<String>,
    /// The instant that came due, kept verbatim as the delivery key.
    pub reminder_at: String,
    /// Whether it had slipped further past its moment than the grace allows.
    pub overdue: bool,
}

/// The reminders of one task, from the first on, that have come due at `now`
/// and have not been delivered: readable, at or before `now`, and not in the
/// delivery set.
pub open spec fn due_of_task(
    todo: Todo,
    reminders: Seq<Reminder>,
    delivered: Seq<(String, String)>,
    now: int,
    grace: int,
) -> Seq<DueReminder>
    decreases reminders.len(),
{
    if reminders.len() == 0 {
        seq![]
    } else {
        let reminder = reminders.last();
        let earlier = due_of_task(todo, reminders.drop_last(), delivered, now, grace);
        match spec_parse_instant(vstd::utf8::encode_utf8(reminder.at@)) {
            Some(instant) => if !is_delivered(delivered, todo.id@, reminder.at@)
                && instant.unix_seconds <= now {
                earlier.push(
                    DueReminder {
                        todo_id: todo.id,
                        title: todo.title,
                        due_date: todo.due_date,
                        reminder_at: reminder.at,
                        overdue: now - instant.unix_seconds > grace,
                    },
                )
            } else {
                earlier
            },
            None => earlier,
        }
    }
}

/// The reminders of the first `n` tasks that have come due.
pub open spec fn due_of_tasks(
    todos: Seq<Todo>,
    n: int,
    delivered: Seq<(String, String)>,
    now: int,
    grace: int,
) -> Seq<DueReminder>
    decreases n,
{
    if n <= 0 {
        seq![]
    } else {
        let todo = todos[n - 1];
        due_of_tasks(todos, n - 1, delivered, now, grace) + if may_raise(todos, todo) {
            due_of_task(todo, todo.reminders@, delivered, now, grace)
        } else {
            seq![]
        }
    }
}

proof fn lemma_task_skips_delivered(
    todo: Todo,
    reminders: Seq<Reminder>,
    delivered: Seq<(String, String)>,
    now: int,
    grace: int,
)
    ensures
        forall|k: int|
            0 <= k < due_of_task(todo, reminders, delivered, now, grace).len() ==> {
                let due = #[trigger] due_of_task(todo, reminders, delivered, now, grace)[k];
                !is_delivered(delivered, due.todo_id@, due.reminder_at@)
            },
    decreases reminders.len(),
{
    if reminders.len() > 0 {
        lemma_task_skips_delivered(todo, reminders.drop_last(), delivered, now, grace);
    }
}

/// A reminder that has a delivery record is never raised: what one poll
/// records stays quiet at every later poll, and after a restart.
pub proof fn lemma_a_delivered_reminder_is_not_raised_again(
    todos: Seq<Todo>,
    n: int,
    delivered: Seq<(String, String)>,
    now: int,
    grace: int,
)
    ensures
        forall|k: int|
            0 <= k < due_of_tasks(todos, n, delivered, now, grace).len() ==> {
                let due = #[trigger] due_of_tasks(todos, n, delivered, now, grace)[k];
                !is_delivered(delivered, due.todo_id@, due.reminder_at@)
            },
    decreases n,
{
    if n > 0 {
        lemma_a_delivered_reminder_is_not_raised_again(todos, n - 1, delivered, now, grace);
        let todo = todos[n - 1];
        lemma_task_skips_delivered(todo, todo.reminders@, delivered, now, grace);
        let earlier = due_of_tasks(todos, n - 1, delivered, now, grace);
        let own = if may_raise(todos, todo) {
            due_of_task(todo, todo.reminders@, delivered, now, grace)
        } else {
            seq![]
        };
        assert forall|k: int| 0 <= k < (earlier + own).len() implies {
            let due = #[trigger] (earlier + own)[k];
            !is_delivered(delivered, due.todo_id@, due.reminder_at@)
        } by {
            if k < earlier.len() {
                assert((earlier + own)[k] == earlier[k]);
            } else {
                assert((earlier + own)[k] == own[k - earlier.len()]);
            }
        }
    }
}

/// The reminders that have come due at `now_unix` and have not been
/// delivered, task by task and, within a task, in the order its reminders are
/// listed.
///
/// `delivered` holds the `(todo_id, reminder_at)` pairs already raised; a
/// reminder whose pair is in it is skipped. A reminder raised more than
/// `overdue_grace_seconds` past its moment is marked overdue.
pub fn due_reminders(
    todos: &[Todo],
    delivered: &[(String, String)],
    now_unix: i64,
    overdue_grace_seconds: i64,
) -> (due: Vec<DueReminder>)
    ensures
        due@ == due_of_tasks(
            todos@,
            todos@.len() as int,
            delivered@,
            now_unix as int,
            overdue_grace_seconds as int,
        ),
{
    let (known, completed) = lock_context(todos);
    let mut due: Vec<DueReminder> = Vec::new();
    let mut i: usize = 0;
    while i < todos.len()
        invariant
            0 <= i <= todos@.len(),
            ids_view(known@) == known_ids(todos@),
            ids_view(completed@) == completed_ids(todos@),
            due@ == due_of_tasks(
                todos@,
                i as int,
                delivered@,
                now_unix as int,
                overdue_grace_seconds as int,
            ),
        decreases todos@.len() - i,
    {
        let todo = &todos[i];
        let open = todo.status == TodoStatus::Open && todo.archived_at.is_none();
        if open && !dependency_lock(todo.depends_on.as_slice(), known.as_slice(), completed.as_slice()).locked {
            let ghost before = due@;
            let mut j: usize = 0;
            while j < todo.reminders.len()
                invariant
                    0 <= j <= todo.reminders@.len(),
                    due@ == before + due_of_task(
                        *todo,
                        todo.reminders@.subrange(0, j as int),
                        delivered@,
                        now_unix as int,
                        overdue_grace_seconds as int,
                    ),
                decreases todo.reminders@.len() - j,
            {
                let reminder = &todo.reminders[j];
                proof {
                    let upto = todo.reminders@.subrange(0, j + 1);
                    assert(upto.drop_last() =~= todo.reminders@.subrange(0, j as int));
                    assert(upto.last() == *reminder);
                }
                if let Some(unix) = instant_unix_seconds(reminder.at.as_str()) {
                    if !was_delivered(delivered, &todo.id, &reminder.at) && unix <= now_unix {
                        due.push(
                            DueReminder {
                                todo_id: todo.id.clone(),
                                title: todo.title.clone(),
                                due_date: todo.due_date.clone(),
                                reminder_at: reminder.at.clone(),
                                overdue: now_unix as i128 - unix as i128 > overdue_grace_seconds as i128,
                            },
                        );
                    }
                }
                proof {
                    assert(due@ =~= before + due_of_task(
                        *todo,
                        todo.reminders@.subrange(0, j + 1),
                        delivered@,
                        now_unix as int,
                        overdue_grace_seconds as int,
                    ));
                }
                j = j + 1;
            }
            proof {
                assert(todo.reminders@.subrange(0, todo.reminders@.len() as int) =~= todo.reminders@);
            }
        }
        proof {
            assert(due@ =~= due_of_tasks(
                todos@,
                i + 1,
                delivered@,
                now_unix as int,
                overdue_grace_seconds as int,
            ));
        }
        i = i + 1;
    }
    due
}

} // verus!
