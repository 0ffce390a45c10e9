//! What a desktop notification says for a reminder or an overdue nag.

use vstd::prelude::*;

use crate::reminder::DueReminder;
use crate::renag::RenagDue;
use crate::text::{padded_signed, push_padded_signed, push_str};

verus! {

/// The headline and body a reminder is shown with: an overdue one is marked
/// in its title, and the body names the due date when the task has one.
pub open spec fn spec_notification_text(reminder: DueReminder) -> (Seq<char>, Seq<char>) {
    (
        if reminder.overdue {
            "【逾期】"@ + reminder.title@
        } else {
            reminder.title@
        },
        match reminder.due_date {
            Some(due_date) => "截止日："@ + due_date@,
            None => "提醒时间到了"@,
        },
    )
}

/// The headline and body a reminder is shown with.
pub fn notification_text(reminder: &DueReminder) -> (text: (String, String))
    ensures
        (text.0@, text.1@) == spec_notification_text(*reminder),
{
    let mut title = String::new();
    if reminder.overdue {
        push_str(&mut title, "【逾期】");
    }
    push_str(&mut title, reminder.title.as_str());
    let mut body = String::new();
    match &reminder.due_date {
        Some(due_date) => {
            push_str(&mut body, "截止日：");
            push_str(&mut body, due_date.as_str());
        },
        None => push_str(&mut body, "提醒时间到了"),
    }
    proof {
        reveal_strlit("【逾期】");
        reveal_strlit("截止日：");
        reveal_strlit("提醒时间到了");
    }
    (title, body)
}

/// The headline and body an overdue nag is shown with: its own notification,
/// saying how many days the task is overdue and that completing it stops the
/// nagging.
pub open spec fn spec_renag_notification_text(renag: RenagDue) -> (Seq<char>, Seq<char>) {
    (
        "逾期未完成 · "@ + renag.title@,
        "已逾期 "@ + padded_signed(renag.days_overdue as int, 1) + " 天，完成后不再提醒。"@,
    )
}

/// The headline and body an overdue nag is shown with.
pub fn renag_notification_text(renag: &RenagDue) -> (text: (String, String))
    ensures
        (text.0@, text.1@) == spec_renag_notification_text(*renag),
{
    let mut title = String::new();
    push_str(&mut title, "逾期未完成 · ");
    push_str(&mut title, renag.title.as_str());
    let mut body = String::new();
    push_str(&mut body, "已逾期 ");
    push_padded_signed(&mut body, renag.days_overdue, 1);
    push_str(&mut body, " 天，完成后不再提醒。");
    proof {
        reveal_strlit("逾期未完成 · ");
        reveal_strlit("已逾期 ");
        reveal_strlit(" 天，完成后不再提醒。");
    }
    (title, body)
}

} // verus!
