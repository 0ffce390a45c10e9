//! The shapes a task and its sync traffic take, and the rules a value must
//! meet before it may be stored or synced.
//!
//! Every validator answers with the first fault it meets, in the order the
//! rules are listed, so the same value always earns the same refusal.

use vstd::prelude::*;

use crate::text::{contains_id, ids_view, trimmed, trimmed_len};
use vstd::string::StrSliceExecFns;

verus! {

/// The revision counter of the sync log.
pub type SyncCursor = u32;

/// Longest accepted title, in characters, for a todo or one of its subtasks.
pub const MAX_TITLE_CHARS: usize = 500;

/// Longest accepted free-text note on a todo.
pub const MAX_NOTES_CHARS: usize = 20_000;

/// Longest accepted attachment location.
pub const MAX_URL_CHARS: usize = 2_048;

/// Longest accepted list-valued field (tags, subtasks, attachments, dependencies).
pub const MAX_LIST_ENTRIES: usize = 200;

/// Largest accepted repeat interval, which covers "every N days" up to a year.
pub const MAX_RECURRENCE_INTERVAL: u32 = 999;

/// Most operations one sync request may carry.
pub const MAX_SYNC_OPERATIONS: usize = 100;

/// Why a value was refused.
#[derive(Clone, Copy, Debug, PartialEq, Eq, Structural)]
pub enum ContractValidationError {
    DeleteHasPatch,
    DuplicateEntry,
    InvalidAttachment,
    InvalidEstimate,
    InvalidId,
    InvalidNotes,
    InvalidRecurrence,
    InvalidTimeRange,
    InvalidTitle,
    MissingUpsertPatch,
    SelfDependency,
    TooManyEntries,
    TooManyOperations,
}

/// The sentence each refusal is reported with.
pub open spec fn error_message(error: ContractValidationError) -> Seq<char> {
    match error {
        ContractValidationError::DeleteHasPatch => "delete operations must not include a patch"@,
        ContractValidationError::DuplicateEntry => "a list field must not repeat an entry"@,
        ContractValidationError::InvalidAttachment => "an attachment needs a location of 1 to 2048 characters"@,
        ContractValidationError::InvalidEstimate => "an estimate must be at least one minute"@,
        ContractValidationError::InvalidId => "an id must contain non-whitespace characters"@,
        ContractValidationError::InvalidNotes => "notes support at most 20000 characters"@,
        ContractValidationError::InvalidRecurrence => "the recurrence rule is not a usable combination"@,
        ContractValidationError::InvalidTimeRange => "an end time requires a start time"@,
        ContractValidationError::InvalidTitle => "a title must contain 1 to 500 non-whitespace characters"@,
        ContractValidationError::MissingUpsertPatch => "upsert operations require a patch"@,
        ContractValidationError::SelfDependency => "a task cannot depend on itself"@,
        ContractValidationError::TooManyEntries => "a list field supports at most 200 entries"@,
        ContractValidationError::TooManyOperations => "sync requests support at most 100 operations"@,
    }
}

impl ContractValidationError {
    /// The sentence this refusal is reported with.
    pub fn message(&self) -> (text: &'static str)
        ensures
            text@ == error_message(*self),
    {
        match self {
            ContractValidationError::DeleteHasPatch => "delete operations must not include a patch",
            ContractValidationError::DuplicateEntry => "a list field must not repeat an entry",
            ContractValidationError::InvalidAttachment => "an attachment needs a location of 1 to 2048 characters",
            ContractValidationError::InvalidEstimate => "an estimate must be at least one minute",
            ContractValidationError::InvalidId => "an id must contain non-whitespace characters",
            ContractValidationError::InvalidNotes => "notes support at most 20000 characters",
            ContractValidationError::InvalidRecurrence => "the recurrence rule is not a usable combination",
            ContractValidationError::InvalidTimeRange => "an end time requires a start time",
            ContractValidationError::InvalidTitle => "a title must contain 1 to 500 non-whitespace characters",
            ContractValidationError::MissingUpsertPatch => "upsert operations require a patch",
            ContractValidationError::SelfDependency => "a task cannot depend on itself",
            ContractValidationError::TooManyEntries => "a list field supports at most 200 entries",
            ContractValidationError::TooManyOperations => "sync requests support at most 100 operations",
        }
    }
}

/// The first of two faults, in the order the rules are checked.
pub open spec fn either(first: Option<ContractValidationError>, then: Option<ContractValidationError>) -> Option<ContractValidationError> {
    if first is Some {
        first
    } else {
        then
    }
}

/// A fault as the answer a validator gives.
pub open spec fn as_result(fault: Option<ContractValidationError>) -> Result<(), ContractValidationError> {
    match fault {
        Some(error) => Err(error),
        None => Ok(()),
    }
}

/// The fault of the first of the entries `0..n` that has one.
pub open spec fn first_fault(n: nat, fault: spec_fn(int) -> Option<ContractValidationError>) -> Option<ContractValidationError>
    decreases n,
{
    if n == 0 {
        None
    } else {
        either(first_fault((n - 1) as nat, fault), fault(n - 1))
    }
}

/// Once an entry has a fault, entries further on do not change the answer.
pub proof fn lemma_first_fault_stays(n: nat, m: nat, fault: spec_fn(int) -> Option<ContractValidationError>)
    requires
        n <= m,
        first_fault(n, fault) is Some,
    ensures
        first_fault(m, fault) == first_fault(n, fault),
    decreases m - n,
{
    if n < m {
        lemma_first_fault_stays(n, (m - 1) as nat, fault);
    }
}

/// An id must hold something besides white space.
pub open spec fn id_fault(value: Seq<char>) -> Option<ContractValidationError> {
    if trimmed(value).len() == 0 {
        Some(ContractValidationError::InvalidId)
    } else {
        None
    }
}

/// A title must hold 1 to 500 characters once trimmed.
pub open spec fn title_fault(value: Seq<char>) -> Option<ContractValidationError> {
    if trimmed(value).len() == 0 || trimmed(value).len() > MAX_TITLE_CHARS {
        Some(ContractValidationError::InvalidTitle)
    } else {
        None
    }
}

/// Notes may run to 20000 characters.
pub open spec fn notes_fault(value: Seq<char>) -> Option<ContractValidationError> {
    if value.len() > MAX_NOTES_CHARS {
        Some(ContractValidationError::InvalidNotes)
    } else {
        None
    }
}

/// An attachment location must hold 1 to 2048 characters once trimmed.
pub open spec fn url_fault(value: Seq<char>) -> Option<ContractValidationError> {
    if trimmed(value).len() == 0 || trimmed(value).len() > MAX_URL_CHARS {
        Some(ContractValidationError::InvalidAttachment)
    } else {
        None
    }
}

/// What is wrong with entry `i` of an id list, if anything: a blank id, or
/// one an earlier entry already holds.
pub open spec fn id_entry_faults(ids: Seq<Seq<char>>) -> spec_fn(int) -> Option<ContractValidationError> {
    |i: int|
        either(
            id_fault(ids[i]),
            if ids.subrange(0, i).contains(ids[i]) {
                Some(ContractValidationError::DuplicateEntry)
            } else {
                None
            },
        )
}

/// Ids must be usable and distinct, and at most 200 of them.
pub open spec fn id_list_fault(ids: Seq<Seq<char>>) -> Option<ContractValidationError> {
    if ids.len() > MAX_LIST_ENTRIES {
        Some(ContractValidationError::TooManyEntries)
    } else {
        first_fault(ids.len(), id_entry_faults(ids))
    }
}

/// A list field of any kind holds at most 200 entries.
pub open spec fn length_fault(len: nat) -> Option<ContractValidationError> {
    if len > MAX_LIST_ENTRIES {
        Some(ContractValidationError::TooManyEntries)
    } else {
        None
    }
}

/// Whether an id is blank.
pub fn validate_id(value: &str) -> (r: Result<(), ContractValidationError>)
    ensures
        r == as_result(id_fault(value@)),
{
    if trimmed_len(value) == 0 {
        return Err(ContractValidationError::InvalidId);
    }
    Ok(())
}

/// Whether a title is blank or longer than 500 characters.
pub fn validate_title(value: &str) -> (r: Result<(), ContractValidationError>)
    ensures
        r == as_result(title_fault(value@)),
{
    let n = trimmed_len(value);
    if n == 0 || n > MAX_TITLE_CHARS {
        return Err(ContractValidationError::InvalidTitle);
    }
    Ok(())
}

/// Whether notes run past 20000 characters.
pub fn validate_notes(value: &str) -> (r: Result<(), ContractValidationError>)
    ensures
        r == as_result(notes_fault(value@)),
{
    if value.unicode_len() > MAX_NOTES_CHARS {
        return Err(ContractValidationError::InvalidNotes);
    }
    Ok(())
}

/// Whether `ids[..end]` holds an id with the same text as `id`.
fn has_id_before(ids: &[String], end: usize, id: &String) -> (found: bool)
    requires
        end <= ids@.len(),
    ensures
        found == ids_view(ids@).subrange(0, end as int).contains(id@),
{
    let ghost before = ids_view(ids@).subrange(0, end as int);
    let mut j: usize = 0;
    while j < end
        invariant
            end <= ids@.len(),
            before == ids_view(ids@).subrange(0, end as int),
            0 <= j <= end,
            forall|k: int| 0 <= k < j ==> before[k] != id@,
        decreases end - j,
    {
        if ids[j] == *id {
            assert(before[j as int] == id@);
            return true;
        }
        j = j + 1;
    }
    false
}

/// Ids must be usable and distinct; the lists are short enough that comparing
/// against the entries already seen beats pulling in a set.
pub fn validate_id_list(ids: &[String]) -> (r: Result<(), ContractValidationError>)
    ensures
        r == as_result(id_list_fault(ids_view(ids@))),
{
    let ghost view = ids_view(ids@);
    let ghost faults = id_entry_faults(view);
    if ids.len() > MAX_LIST_ENTRIES {
        return Err(ContractValidationError::TooManyEntries);
    }
    let mut i: usize = 0;
    while i < ids.len()
        invariant
            view == ids_view(ids@),
            faults == id_entry_faults(view),
            ids.len() <= MAX_LIST_ENTRIES,
            0 <= i <= ids.len(),
            first_fault(i as nat, faults) is None,
        decreases ids.len() - i,
    {
        let blank = validate_id(ids[i].as_str());
        let repeated = has_id_before(ids, i, &ids[i]);
        proof {
            assert(view[i as int] == ids@[i as int]@);
            assert(first_fault((i + 1) as nat, faults) == faults(i as int));
            assert(faults(i as int) == either(
                id_fault(view[i as int]),
                if view.subrange(0, i as int).contains(view[i as int]) {
                    Some(ContractValidationError::DuplicateEntry)
                } else {
                    None
                },
            ));
        }
        if let Err(error) = blank {
            proof {
                lemma_first_fault_stays((i + 1) as nat, view.len(), faults);
            }
            return Err(error);
        }
        if repeated {
            proof {
                lemma_first_fault_stays((i + 1) as nat, view.len(), faults);
            }
            return Err(ContractValidationError::DuplicateEntry);
        }
        i = i + 1;
    }
    Ok(())
}


/// One reminder point on a task: the instant it is set for, and the device's
/// offset from UTC in seconds east when it was set.
#[derive(Clone, Debug)]
pub struct Reminder {
    /// The instant, as an ISO 8601 UTC instant.
    pub at: String,
    /// Seconds east of UTC the device sat at when the reminder was set.
    pub offset: i32,
}

/// One step of a task's checklist.
#[derive(Clone, Debug)]
pub struct Subtask {
    pub id: String,
    pub title: String,
    pub done: bool,
}

/// Whether an attachment is a link or a file.
#[derive(Clone, Copy, Debug, PartialEq, Eq, Structural)]
pub enum AttachmentKind {
    Link,
    File,
}

/// A file or link attached to a task.
#[derive(Clone, Debug)]
pub struct Attachment {
    pub id: String,
    pub kind: AttachmentKind,
    /// The URL for a link, the file location for a file.
    pub url: String,
    /// Label shown instead of the raw location.
    pub name: Option<String>,
}

/// Reminders share the ceiling every other list field is held to; the instant
/// itself is left unchecked.
pub fn validate_reminders(reminders: &[Reminder]) -> (r: Result<(), ContractValidationError>)
    ensures
        r == as_result(length_fault(reminders@.len())),
{
    if reminders.len() > MAX_LIST_ENTRIES {
        return Err(ContractValidationError::TooManyEntries);
    }
    Ok(())
}

/// What is wrong with subtask `i`, if anything.
pub open spec fn subtask_entry_faults(subtasks: Seq<Subtask>) -> spec_fn(int) -> Option<ContractValidationError> {
    |i: int|
        either(
            id_fault(subtasks[i].id@),
            either(
                title_fault(subtasks[i].title@),
                if exists|j: int| 0 <= j < i && (#[trigger] subtasks[j]).id@ == subtasks[i].id@ {
                    Some(ContractValidationError::DuplicateEntry)
                } else {
                    None
                },
            ),
        )
}

/// Subtasks need usable, distinct ids and usable titles, at most 200 of them.
pub open spec fn subtask_list_fault(subtasks: Seq<Subtask>) -> Option<ContractValidationError> {
    either(length_fault(subtasks.len()), first_fault(subtasks.len(), subtask_entry_faults(subtasks)))
}

/// Whether a subtask before `end` has the id `id`.
fn subtask_id_before(subtasks: &[Subtask], end: usize, id: &String) -> (found: bool)
    requires
        end <= subtasks@.len(),
    ensures
        found == exists|j: int| 0 <= j < end && (#[trigger] subtasks@[j]).id@ == id@,
{
    let mut j: usize = 0;
    while j < end
        invariant
            end <= subtasks@.len(),
            0 <= j <= end,
            forall|k: int| 0 <= k < j ==> (#[trigger] subtasks@[k]).id@ != id@,
        decreases end - j,
    {
        if subtasks[j].id == *id {
            return true;
        }
        j = j + 1;
    }
    false
}

pub fn validate_subtasks(subtasks: &[Subtask]) -> (r: Result<(), ContractValidationError>)
    ensures
        r == as_result(subtask_list_fault(subtasks@)),
{
    let ghost faults = subtask_entry_faults(subtasks@);
    if subtasks.len() > MAX_LIST_ENTRIES {
        return Err(ContractValidationError::TooManyEntries);
    }
    let mut i: usize = 0;
    while i < subtasks.len()
        invariant
            faults == subtask_entry_faults(subtasks@),
            subtasks.len() <= MAX_LIST_ENTRIES,
            0 <= i <= subtasks.len(),
            first_fault(i as nat, faults) is None,
        decreases subtasks.len() - i,
    {
        let subtask = &subtasks[i];
        let blank = validate_id(subtask.id.as_str());
        let title = validate_title(subtask.title.as_str());
        let repeated = subtask_id_before(subtasks, i, &subtask.id);
        proof {
            assert(first_fault((i + 1) as nat, faults) == faults(i as int));
        }
        let fault = if let Err(error) = blank {
            Some(error)
        } else if let Err(error) = title {
            Some(error)
        } else if repeated {
            Some(ContractValidationError::DuplicateEntry)
        } else {
            None
        };
        if let Some(error) = fault {
            proof {
                lemma_first_fault_stays((i + 1) as nat, subtasks@.len(), faults);
            }
            return Err(error);
        }
        i = i + 1;
    }
    Ok(())
}

/// What is wrong with attachment `i`, if anything.
pub open spec fn attachment_entry_faults(attachments: Seq<Attachment>) -> spec_fn(int) -> Option<ContractValidationError> {
    |i: int|
        either(
            id_fault(attachments[i].id@),
            either(
                url_fault(attachments[i].url@),
                if exists|j: int| 0 <= j < i && (#[trigger] attachments[j]).id@ == attachments[i].id@ {
                    Some(ContractValidationError::DuplicateEntry)
                } else {
                    None
                },
            ),
        )
}

/// Attachments need usable, distinct ids and a location, at most 200 of them.
pub open spec fn attachment_list_fault(attachments: Seq<Attachment>) -> Option<ContractValidationError> {
    either(
        length_fault(attachments.len()),
        first_fault(attachments.len(), attachment_entry_faults(attachments)),
    )
}

fn attachment_id_before(attachments: &[Attachment], end: usize, id: &String) -> (found: bool)
    requires
        end <= attachments@.len(),
    ensures
        found == exists|j: int| 0 <= j < end && (#[trigger] attachments@[j]).id@ == id@,
{
    let mut j: usize = 0;
    while j < end
        invariant
            end <= attachments@.len(),
            0 <= j <= end,
            forall|k: int| 0 <= k < j ==> (#[trigger] attachments@[k]).id@ != id@,
        decreases end - j,
    {
        if attachments[j].id == *id {
            return true;
        }
        j = j + 1;
    }
    false
}

pub fn validate_attachments(attachments: &[Attachment]) -> (r: Result<(), ContractValidationError>)
    ensures
        r == as_result(attachment_list_fault(attachments@)),
{
    let ghost faults = attachment_entry_faults(attachments@);
    if attachments.len() > MAX_LIST_ENTRIES {
        return Err(ContractValidationError::TooManyEntries);
    }
    let mut i: usize = 0;
    while i < attachments.len()
        invariant
            faults == attachment_entry_faults(attachments@),
            attachments.len() <= MAX_LIST_ENTRIES,
            0 <= i <= attachments.len(),
            first_fault(i as nat, faults) is None,
        decreases attachments.len() - i,
    {
        let attachment = &attachments[i];
        let blank = validate_id(attachment.id.as_str());
        let url = trimmed_len(attachment.url.as_str());
        let repeated = attachment_id_before(attachments, i, &attachment.id);
        proof {
            assert(first_fault((i + 1) as nat, faults) == faults(i as int));
        }
        let fault = if let Err(error) = blank {
            Some(error)
        } else if url == 0 || url > MAX_URL_CHARS {
            Some(ContractValidationError::InvalidAttachment)
        } else if repeated {
            Some(ContractValidationError::DuplicateEntry)
        } else {
            None
        };
        if let Some(error) = fault {
            proof {
                lemma_first_fault_stays((i + 1) as nat, attachments@.len(), faults);
            }
            return Err(error);
        }
        i = i + 1;
    }
    Ok(())
}


/// How often a rule repeats.
#[derive(Clone, Copy, Debug, PartialEq, Eq, Structural)]
pub enum RecurrenceFrequency {
    Daily,
    Weekly,
    Monthly,
    Yearly,
    /// Every working day, which is holiday-aware rather than "Monday to Friday".
    Workday,
}

/// Which calendar a rule is counted in.
#[derive(Clone, Copy, Debug, PartialEq, Eq, Structural)]
pub enum RecurrenceCalendar {
    Gregorian,
    Lunar,
}

#[derive(Clone, Copy, Debug, PartialEq, Eq, Structural)]
pub enum Weekday {
    Monday,
    Tuesday,
    Wednesday,
    Thursday,
    Friday,
    Saturday,
    Sunday,
}

/// How a task repeats. The combinations that do not make sense are refused by
/// `validate` rather than made unrepresentable.
#[derive(Clone, Debug)]
pub struct RecurrenceRule {
    pub frequency: RecurrenceFrequency,
    /// Repeat every `interval` units of `frequency`.
    pub interval: u32,
    /// For weekly rules, the days it lands on. Empty means "the same weekday as
    /// the task's due date".
    pub weekdays: Vec<Weekday>,
    /// For monthly rules, the day of the month (1–31).
    pub month_day: Option<u32>,
    /// For monthly rules, "the last day of the month".
    pub on_last_day: bool,
    /// Which calendar the rule is counted in.
    pub calendar: RecurrenceCalendar,
    /// Local date the repetition stops on, inclusive.
    pub until: Option<String>,
    /// Number of occurrences the repetition stops after.
    pub count: Option<u32>,
}

/// What is wrong with weekday `i` of a rule: naming a day an earlier entry
/// already named.
pub open spec fn weekday_entry_faults(weekdays: Seq<Weekday>) -> spec_fn(int) -> Option<ContractValidationError> {
    |i: int|
        if weekdays.subrange(0, i).contains(weekdays[i]) {
            Some(ContractValidationError::DuplicateEntry)
        } else {
            None
        }
}

/// The fault a repeat rule has as a pattern of dates, if any, in the order
/// the rules are checked: the interval must be 1 to 999, no weekday may
/// repeat, a month day must be 1 to 31 and not stand beside "the last day",
/// and a count may not be zero.
pub open spec fn pattern_fault(rule: RecurrenceRule) -> Option<ContractValidationError> {
    either(
        if rule.interval == 0 || rule.interval > MAX_RECURRENCE_INTERVAL {
            Some(ContractValidationError::InvalidRecurrence)
        } else {
            None
        },
        either(
            first_fault(rule.weekdays@.len(), weekday_entry_faults(rule.weekdays@)),
            if (rule.month_day matches Some(day) && (day == 0 || day > 31 || rule.on_last_day))
                || rule.count == Some(0u32) {
                Some(ContractValidationError::InvalidRecurrence)
            } else {
                None
            },
        ),
    )
}

/// The fault a repeat rule has, if any: its pattern's, and then carrying both
/// an end date and a count, which an exported calendar cannot keep together.
pub open spec fn rule_fault(rule: RecurrenceRule) -> Option<ContractValidationError> {
    either(
        pattern_fault(rule),
        if rule.until is Some && rule.count is Some {
            Some(ContractValidationError::InvalidRecurrence)
        } else {
            None
        },
    )
}

/// Whether `days[..end]` names `day`.
fn weekday_before(days: &[Weekday], end: usize, day: Weekday) -> (found: bool)
    requires
        end <= days@.len(),
    ensures
        found == days@.subrange(0, end as int).contains(day),
{
    let ghost before = days@.subrange(0, end as int);
    let mut j: usize = 0;
    while j < end
        invariant
            end <= days@.len(),
            before == days@.subrange(0, end as int),
            0 <= j <= end,
            forall|k: int| 0 <= k < j ==> before[k] != day,
        decreases end - j,
    {
        if days[j] == day {
            assert(before[j as int] == day);
            return true;
        }
        j = j + 1;
    }
    false
}

impl RecurrenceRule {
    /// Checks the rule as a pattern of dates, leaving aside whether it
    /// carries both ends.
    pub fn validate_pattern(&self) -> (r: Result<(), ContractValidationError>)
        ensures
            r == as_result(pattern_fault(*self)),
    {
        if self.interval == 0 || self.interval > MAX_RECURRENCE_INTERVAL {
            return Err(ContractValidationError::InvalidRecurrence);
        }
        let ghost faults = weekday_entry_faults(self.weekdays@);
        let mut i: usize = 0;
        while i < self.weekdays.len()
            invariant
                faults == weekday_entry_faults(self.weekdays@),
                0 < self.interval <= MAX_RECURRENCE_INTERVAL,
                0 <= i <= self.weekdays.len(),
                first_fault(i as nat, faults) is None,
            decreases self.weekdays.len() - i,
        {
            let repeated = weekday_before(self.weekdays.as_slice(), i, self.weekdays[i]);
            proof {
                assert(first_fault((i + 1) as nat, faults) == faults(i as int));
            }
            if repeated {
                proof {
                    lemma_first_fault_stays((i + 1) as nat, self.weekdays@.len(), faults);
                }
                return Err(ContractValidationError::DuplicateEntry);
            }
            i = i + 1;
        }
        if let Some(day) = self.month_day {
            if day == 0 || day > 31 || self.on_last_day {
                return Err(ContractValidationError::InvalidRecurrence);
            }
        }
        if self.count == Some(0u32) {
            return Err(ContractValidationError::InvalidRecurrence);
        }
        Ok(())
    }

    pub fn validate(&self) -> (r: Result<(), ContractValidationError>)
        ensures
            r == as_result(rule_fault(*self)),
    {
        self.validate_pattern()?;
        // An end date and a count are both stopping conditions, and an exported
        // calendar can keep only one of them, so a rule may carry at most one.
        if self.until.is_some() && self.count.is_some() {
            return Err(ContractValidationError::InvalidRecurrence);
        }
        Ok(())
    }
}


/// Whether a task is still to be done.
#[derive(Clone, Copy, Debug, PartialEq, Eq, Structural)]
pub enum TodoStatus {
    Open,
    Completed,
}

/// A task.
#[derive(Clone, Debug)]
pub struct Todo {
    pub id: String,
    pub title: String,
    pub status: TodoStatus,
    pub created_at: String,
    pub completed_at: Option<String>,
    /// When the task was archived; orthogonal to completing it.
    pub archived_at: Option<String>,
    pub due_date: Option<String>,
    /// Reminder points on the task, each firing at its own moment.
    pub reminders: Vec<Reminder>,
    /// Free-text description.
    pub notes: Option<String>,
    /// Local date the task becomes actionable.
    pub start_date: Option<String>,
    /// Start of a timed block, as an instant.
    pub starts_at: Option<String>,
    /// End of a timed block; only meaningful together with `starts_at`.
    pub ends_at: Option<String>,
    /// Planned effort in minutes.
    pub estimated_minutes: Option<u32>,
    /// Repeat rule; absent means the task happens once.
    pub recurrence: Option<RecurrenceRule>,
    /// The list the task belongs to; absent means the inbox.
    pub list_id: Option<String>,
    pub important: Option<bool>,
    pub urgent: Option<bool>,
    /// Tags applied to the task, by tag id.
    pub tag_ids: Vec<String>,
    /// Checklist inside the task, in display order.
    pub subtasks: Vec<Subtask>,
    /// Files and links hanging off the task.
    pub attachments: Vec<Attachment>,
    /// Tasks that must be done before this one.
    pub depends_on: Vec<String>,
    /// Scheduled dates (`YYYY-MM-DD`) the task has been checked in on.
    pub check_ins: Vec<String>,
}

/// The fault of an optional value, or none when it is absent.
pub open spec fn optional_fault<T>(value: Option<T>, fault: spec_fn(T) -> Option<ContractValidationError>) -> Option<ContractValidationError> {
    match value {
        Some(inner) => fault(inner),
        None => None,
    }
}

/// The fault a task has, if any, in the order the rules are checked.
pub open spec fn todo_fault(todo: Todo) -> Option<ContractValidationError> {
    either(id_fault(todo.id@),
    either(title_fault(todo.title@),
    either(optional_fault(todo.notes, |notes: String| notes_fault(notes@)),
    either(if todo.ends_at is Some && todo.starts_at is None {
        Some(ContractValidationError::InvalidTimeRange)
    } else {
        None
    },
    either(if todo.estimated_minutes == Some(0u32) {
        Some(ContractValidationError::InvalidEstimate)
    } else {
        None
    },
    either(optional_fault(todo.recurrence, |rule: RecurrenceRule| rule_fault(rule)),
    either(optional_fault(todo.list_id, |list: String| id_fault(list@)),
    either(length_fault(todo.reminders@.len()),
    either(id_list_fault(ids_view(todo.tag_ids@)),
    either(subtask_list_fault(todo.subtasks@),
    either(attachment_list_fault(todo.attachments@),
    either(id_list_fault(ids_view(todo.depends_on@)),
    either(if ids_view(todo.depends_on@).contains(todo.id@) {
        Some(ContractValidationError::SelfDependency)
    } else {
        None
    },
    id_list_fault(ids_view(todo.check_ins@))
    )))))))))))))
}

impl Todo {
    pub fn validate(&self) -> (r: Result<(), ContractValidationError>)
        ensures
            r == as_result(todo_fault(*self)),
    {
        validate_id(self.id.as_str())?;
        validate_title(self.title.as_str())?;
        if let Some(notes) = &self.notes {
            validate_notes(notes.as_str())?;
        }
        if self.ends_at.is_some() && self.starts_at.is_none() {
            return Err(ContractValidationError::InvalidTimeRange);
        }
        if self.estimated_minutes == Some(0u32) {
            return Err(ContractValidationError::InvalidEstimate);
        }
        if let Some(recurrence) = &self.recurrence {
            recurrence.validate()?;
        }
        if let Some(list_id) = &self.list_id {
            validate_id(list_id.as_str())?;
        }
        validate_reminders(self.reminders.as_slice())?;
        validate_id_list(self.tag_ids.as_slice())?;
        validate_subtasks(self.subtasks.as_slice())?;
        validate_attachments(self.attachments.as_slice())?;
        validate_id_list(self.depends_on.as_slice())?;
        if contains_id(self.depends_on.as_slice(), &self.id) {
            return Err(ContractValidationError::SelfDependency);
        }
        // Check-in dates are civil dates rather than ids, but the same three
        // faults apply to them: too many, a blank one, or a day recorded twice.
        validate_id_list(self.check_ins.as_slice())?;
        Ok(())
    }
}


/// The fields one sync operation changes.
///
/// An absent field means "unchanged"; a present one replaces the stored value.
/// Nullable fields are nested options: the outer option says whether the patch
/// mentions the field, the inner one what it sets it to, so "leave it alone" and
/// "clear it" are different values.
#[derive(Clone, Debug)]
pub struct TodoPatch {
    pub title: Option<String>,
    pub status: Option<TodoStatus>,
    pub due_date: Option<Option<String>>,
    pub completed_at: Option<Option<String>>,
    /// Restoring an archived task is clearing this field.
    pub archived_at: Option<Option<String>>,
    pub notes: Option<Option<String>>,
    pub start_date: Option<Option<String>>,
    pub starts_at: Option<Option<String>>,
    pub ends_at: Option<Option<String>>,
    pub estimated_minutes: Option<Option<u32>>,
    pub recurrence: Option<Option<RecurrenceRule>>,
    pub list_id: Option<Option<String>>,
    pub important: Option<Option<bool>>,
    pub urgent: Option<Option<bool>>,
    /// The whole reminder list, sent as one value: an empty list clears it.
    pub reminders: Option<Vec<Reminder>>,
    pub tag_ids: Option<Vec<String>>,
    pub subtasks: Option<Vec<Subtask>>,
    pub attachments: Option<Vec<Attachment>>,
    pub depends_on: Option<Vec<String>>,
    /// The whole set of scheduled dates a habit has been checked in on.
    pub check_ins: Option<Vec<String>>,
}

impl TodoPatch {
    /// A patch that mentions no field.
    pub fn empty() -> (patch: TodoPatch)
        ensures
            patch.title is None && patch.status is None && patch.due_date is None
                && patch.completed_at is None && patch.archived_at is None && patch.notes is None
                && patch.start_date is None && patch.starts_at is None && patch.ends_at is None
                && patch.estimated_minutes is None && patch.recurrence is None
                && patch.list_id is None && patch.important is None && patch.urgent is None
                && patch.reminders is None && patch.tag_ids is None && patch.subtasks is None
                && patch.attachments is None && patch.depends_on is None
                && patch.check_ins is None,
    {
        TodoPatch {
            title: None,
            status: None,
            due_date: None,
            completed_at: None,
            archived_at: None,
            notes: None,
            start_date: None,
            starts_at: None,
            ends_at: None,
            estimated_minutes: None,
            recurrence: None,
            list_id: None,
            important: None,
            urgent: None,
            reminders: None,
            tag_ids: None,
            subtasks: None,
            attachments: None,
            depends_on: None,
            check_ins: None,
        }
    }
}

/// The fault a patch has, if any: each field it sets is held to the rule the
/// same field of a task is held to.
pub open spec fn patch_fault(patch: TodoPatch) -> Option<ContractValidationError> {
    either(optional_fault(patch.title, |title: String| title_fault(title@)),
    either(match patch.notes { Some(Some(notes)) => notes_fault(notes@), _ => None },
    either(if patch.estimated_minutes == Some(Some(0u32)) {
        Some(ContractValidationError::InvalidEstimate)
    } else {
        None
    },
    either(match patch.recurrence { Some(Some(rule)) => rule_fault(rule), _ => None },
    either(match patch.list_id { Some(Some(list)) => id_fault(list@), _ => None },
    either(optional_fault(patch.reminders, |r: Vec<Reminder>| length_fault(r@.len())),
    either(optional_fault(patch.tag_ids, |ids: Vec<String>| id_list_fault(ids_view(ids@))),
    either(optional_fault(patch.subtasks, |subtasks: Vec<Subtask>| subtask_list_fault(subtasks@)),
    either(optional_fault(patch.attachments, |a: Vec<Attachment>| attachment_list_fault(a@)),
    either(optional_fault(patch.depends_on, |ids: Vec<String>| id_list_fault(ids_view(ids@))),
    optional_fault(patch.check_ins, |ids: Vec<String>| id_list_fault(ids_view(ids@)))
    ))))))))))
}

impl TodoPatch {
    pub fn validate(&self) -> (r: Result<(), ContractValidationError>)
        ensures
            r == as_result(patch_fault(*self)),
    {
        if let Some(title) = &self.title {
            validate_title(title.as_str())?;
        }
        if let Some(Some(notes)) = &self.notes {
            validate_notes(notes.as_str())?;
        }
        if self.estimated_minutes == Some(Some(0u32)) {
            return Err(ContractValidationError::InvalidEstimate);
        }
        if let Some(Some(recurrence)) = &self.recurrence {
            recurrence.validate()?;
        }
        if let Some(Some(list_id)) = &self.list_id {
            validate_id(list_id.as_str())?;
        }
        if let Some(reminders) = &self.reminders {
            validate_reminders(reminders.as_slice())?;
        }
        if let Some(tag_ids) = &self.tag_ids {
            validate_id_list(tag_ids.as_slice())?;
        }
        if let Some(subtasks) = &self.subtasks {
            validate_subtasks(subtasks.as_slice())?;
        }
        if let Some(attachments) = &self.attachments {
            validate_attachments(attachments.as_slice())?;
        }
        if let Some(depends_on) = &self.depends_on {
            validate_id_list(depends_on.as_slice())?;
        }
        if let Some(check_ins) = &self.check_ins {
            validate_id_list(check_ins.as_slice())?;
        }
        Ok(())
    }
}

/// Whether an operation writes a task or deletes it.
#[derive(Clone, Copy, Debug, PartialEq, Eq, Structural)]
pub enum SyncOperationKind {
    Upsert,
    Delete,
}

/// One change a device sends.
#[derive(Clone, Debug)]
pub struct TodoSyncOperation {
    pub operation_id: String,
    pub todo_id: String,
    pub kind: SyncOperationKind,
    pub occurred_at: String,
    pub patch: Option<TodoPatch>,
}

/// The fault an operation has: its patch's own, then an upsert without a patch
/// or a delete with one.
pub open spec fn operation_fault(operation: TodoSyncOperation) -> Option<ContractValidationError> {
    either(
        optional_fault(operation.patch, |patch: TodoPatch| patch_fault(patch)),
        match (operation.kind, operation.patch) {
            (SyncOperationKind::Upsert, None) => Some(ContractValidationError::MissingUpsertPatch),
            (SyncOperationKind::Delete, Some(_)) => Some(ContractValidationError::DeleteHasPatch),
            _ => None,
        },
    )
}

impl TodoSyncOperation {
    pub fn validate(&self) -> (r: Result<(), ContractValidationError>)
        ensures
            r == as_result(operation_fault(*self)),
    {
        if let Some(patch) = &self.patch {
            patch.validate()?;
        }
        match (&self.kind, &self.patch) {
            (SyncOperationKind::Upsert, None) => Err(ContractValidationError::MissingUpsertPatch),
            (SyncOperationKind::Delete, Some(_)) => Err(ContractValidationError::DeleteHasPatch),
            _ => Ok(()),
        }
    }
}

/// One change as the log hands it back, with the revision it was stored at.
#[derive(Clone, Debug)]
pub struct TodoSyncChange {
    pub operation_id: String,
    pub todo_id: String,
    pub kind: SyncOperationKind,
    pub occurred_at: String,
    pub patch: Option<TodoPatch>,
    pub revision: SyncCursor,
}

impl TodoSyncChange {
    /// The operation as stored at `revision`, every field carried over.
    pub fn from_operation(operation: TodoSyncOperation, revision: SyncCursor) -> (change: Self)
        ensures
            change.operation_id == operation.operation_id,
            change.todo_id == operation.todo_id,
            change.kind == operation.kind,
            change.occurred_at == operation.occurred_at,
            change.patch == operation.patch,
            change.revision == revision,
    {
        TodoSyncChange {
            operation_id: operation.operation_id,
            todo_id: operation.todo_id,
            kind: operation.kind,
            occurred_at: operation.occurred_at,
            patch: operation.patch,
            revision,
        }
    }
}

/// What a device sends: who it is, what it has seen, and its changes.
#[derive(Clone, Debug)]
pub struct SyncRequest {
    pub device_id: String,
    pub cursor: SyncCursor,
    pub operations: Vec<TodoSyncOperation>,
}

/// The fault a request has: too many operations, else the first operation's.
pub open spec fn request_fault(request: SyncRequest) -> Option<ContractValidationError> {
    if request.operations@.len() > MAX_SYNC_OPERATIONS {
        Some(ContractValidationError::TooManyOperations)
    } else {
        first_fault(
            request.operations@.len(),
            |i: int| operation_fault(request.operations@[i]),
        )
    }
}

impl SyncRequest {
    pub fn validate(&self) -> (r: Result<(), ContractValidationError>)
        ensures
            r == as_result(request_fault(*self)),
    {
        if self.operations.len() > MAX_SYNC_OPERATIONS {
            return Err(ContractValidationError::TooManyOperations);
        }
        let ghost faults = |i: int| operation_fault(self.operations@[i]);
        let mut i: usize = 0;
        while i < self.operations.len()
            invariant
                faults == (|i: int| operation_fault(self.operations@[i])),
                self.operations.len() <= MAX_SYNC_OPERATIONS,
                0 <= i <= self.operations.len(),
                first_fault(i as nat, faults) is None,
            decreases self.operations.len() - i,
        {
            let checked = self.operations[i].validate();
            proof {
                assert(first_fault((i + 1) as nat, faults) == faults(i as int));
            }
            if let Err(error) = checked {
                proof {
                    lemma_first_fault_stays((i + 1) as nat, self.operations@.len(), faults);
                }
                return Err(error);
            }
            i = i + 1;
        }
        Ok(())
    }
}

/// What the server answers a sync request with.
#[derive(Clone, Debug)]
pub struct SyncResponse {
    pub acknowledged_operation_ids: Vec<String>,
    pub changes: Vec<TodoSyncChange>,
    pub next_cursor: SyncCursor,
    pub server_time: String,
}

/// The liveness answer the app asks for before syncing.
#[derive(Clone, Debug)]
pub struct HealthResponse {
    pub status: String,
    pub service: String,
    pub time: String,
}

/// How well the server is doing what it is for.
#[derive(Clone, Copy, Debug, PartialEq, Eq, Structural)]
pub enum HealthStatus {
    Okay,
    Degraded,
    Unhealthy,
}

/// A count of rows with something wrong with them.
#[derive(Clone, Debug)]
pub struct RowFaults {
    /// Distinct rows met since the process started.
    pub rows: u64,
    /// How many times such a row has been read.
    pub reads: u64,
    /// Distinct rows first met inside the window.
    pub new_in_window: u64,
    pub first_seen_at: Option<String>,
    pub newest_seen_at: Option<String>,
    /// The most recently discovered row, in one line.
    pub newest: Option<String>,
}

/// What the log itself has to say.
#[derive(Clone, Debug)]
pub struct LogHealth {
    /// Whether the log answered when it was last looked at.
    pub reachable: bool,
    /// Whether the look found the connection in use and did not wait for it.
    pub busy: bool,
    pub latest_revision: Option<SyncCursor>,
    pub unreadable_rows: RowFaults,
    pub partly_read_rows: RowFaults,
}

/// One open concern.
#[derive(Clone, Debug)]
pub struct HealthAlert {
    pub name: String,
    pub severity: HealthStatus,
    /// When it started.
    pub since: String,
    pub detail: String,
}

} // verus!
