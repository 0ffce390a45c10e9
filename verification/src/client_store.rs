//! The rules of the desktop client's own todo store: how a failed write is
//! classified and reported, how stored values are read back, how an older
//! file is brought up to the current layout, and how a batch of parked writes
//! is settled one entry at a time.
//!
//! Reads degrade rather than fail: a single unreadable field must cost that
//! field, not the whole todo. Writes are classified by whether any retry can
//! succeed, because the caller's decision — keep the write for later, or park
//! it for good — turns on exactly that.

use vstd::prelude::*;

use crate::contracts::{error_message, ContractValidationError, TodoStatus};
use crate::text::push_str;

verus! {

/// Revision of the `todos` table layout, stamped into `PRAGMA user_version`.
pub const SCHEMA_VERSION: i64 = 3;

/// Why a write to the local store did not land.
#[derive(Clone, Debug)]
pub enum TodoDbError {
    /// The database could not be opened at startup.
    Unavailable,
    /// A previous command panicked while holding the connection lock.
    Poisoned,
    /// SQLite rejected the statement.
    Sqlite(String),
    /// The todo does not satisfy the contract, so there is nothing to store.
    Invalid(ContractValidationError),
}

/// The sentence each failure is reported with.
pub open spec fn db_error_message(error: TodoDbError) -> Seq<char> {
    match error {
        TodoDbError::Unavailable => "the local todo database is unavailable"@,
        TodoDbError::Poisoned => "the local todo database lock is poisoned"@,
        TodoDbError::Sqlite(message) => "local todo database error: "@ + message@,
        TodoDbError::Invalid(error) => "the todo is not storable: "@ + error_message(error),
    }
}

impl TodoDbError {
    /// Whether no future attempt can succeed. Only the contract answers that:
    /// a database that is busy, full or unopened today may take the very same
    /// write tomorrow, while a todo the contract refuses is refused forever.
    pub fn is_permanent(&self) -> (permanent: bool)
        ensures
            permanent == (self is Invalid),
    {
        match self {
            TodoDbError::Invalid(_) => true,
            _ => false,
        }
    }

    /// The sentence this failure is reported with.
    pub fn message(&self) -> (text: String)
        ensures
            text@ == db_error_message(*self),
    {
        let mut text = String::new();
        match self {
            TodoDbError::Unavailable => push_str(&mut text, "the local todo database is unavailable"),
            TodoDbError::Poisoned => push_str(&mut text, "the local todo database lock is poisoned"),
            TodoDbError::Sqlite(message) => {
                push_str(&mut text, "local todo database error: ");
                push_str(&mut text, message.as_str());
            },
            TodoDbError::Invalid(error) => {
                push_str(&mut text, "the todo is not storable: ");
                push_str(&mut text, error.message());
            },
        }
        proof {
            reveal_strlit("the local todo database is unavailable");
            reveal_strlit("the local todo database lock is poisoned");
            reveal_strlit("local todo database error: ");
            reveal_strlit("the todo is not storable: ");
        }
        text
    }
}

/// Why a single write did not land, for the commands that write one todo.
#[derive(Clone, Debug)]
pub struct WriteRejection {
    pub error: String,
    pub permanent: bool,
}

impl WriteRejection {
    /// The rejection a failure is reported with.
    pub fn from_error(error: &TodoDbError) -> (rejection: WriteRejection)
        ensures
            rejection.error@ == db_error_message(*error),
            rejection.permanent == (*error is Invalid),
    {
        WriteRejection { permanent: error.is_permanent(), error: error.message() }
    }
}

/// A single entry SQLite would not take, with the reason for diagnostics.
#[derive(Clone, Debug)]
pub struct RejectedWrite {
    pub id: String,
    pub error: String,
    /// Whether retrying is pointless, so the caller must park the entry
    /// instead of replaying it forever.
    pub permanent: bool,
}

/// Outcome of replaying the writes parked outside SQLite: accepted ids, and
/// refused entries with their reasons.
#[derive(Clone, Debug)]
pub struct PendingWriteReport {
    pub applied: Vec<String>,
    pub rejected: Vec<RejectedWrite>,
}

impl PendingWriteReport {
    /// Nothing settled yet.
    pub fn new() -> (report: PendingWriteReport)
        ensures
            report.applied@.len() == 0,
            report.rejected@.len() == 0,
    {
        PendingWriteReport { applied: Vec::new(), rejected: Vec::new() }
    }

    /// Settles one replayed upsert of the todo `id`. A stored row is applied;
    /// a row SQLite or the contract refused is rejected, permanently only when
    /// the contract refused it; any other failure means the database as a
    /// whole is unusable and stops the replay.
    pub fn settle_upsert(&mut self, id: String, outcome: Result<(), TodoDbError>) -> (go_on: Result<(), TodoDbError>)
        ensures
            match outcome {
                Ok(()) => go_on is Ok && final(self).applied@ == old(self).applied@.push(id)
                    && final(self).rejected@ == old(self).rejected@,
                Err(TodoDbError::Sqlite(_)) | Err(TodoDbError::Invalid(_)) => go_on is Ok
                    && final(self).applied@ == old(self).applied@ && final(self).rejected@.len()
                    == old(self).rejected@.len() + 1 && final(self).rejected@.drop_last()
                    == old(self).rejected@ && final(self).rejected@.last().id == id
                    && final(self).rejected@.last().permanent == (outcome->Err_0 is Invalid)
                    && final(self).rejected@.last().error@ == db_error_message(outcome->Err_0),
                Err(error) => go_on == Err::<(), TodoDbError>(error) && *final(self) == *old(self),
            },
    {
        match outcome {
            Ok(()) => {
                self.applied.push(id);
                Ok(())
            },
            Err(error) => match error {
                TodoDbError::Sqlite(_) | TodoDbError::Invalid(_) => {
                    let permanent = error.is_permanent();
                    let message = error.message();
                    self.rejected.push(RejectedWrite { id, error: message, permanent });
                    Ok(())
                },
                _ => Err(error),
            },
        }
    }

    /// Settles one replayed deletion of the todo `id`. Deleting an absent row
    /// succeeds, so only SQLite can refuse one, and never for good; any other
    /// failure stops the replay.
    pub fn settle_deletion(&mut self, id: String, outcome: Result<(), TodoDbError>) -> (go_on: Result<(), TodoDbError>)
        ensures
            match outcome {
                Ok(()) => go_on is Ok && final(self).applied@ == old(self).applied@.push(id)
                    && final(self).rejected@ == old(self).rejected@,
                Err(TodoDbError::Sqlite(_)) => go_on is Ok && final(self).applied@
                    == old(self).applied@ && final(self).rejected@.len() == old(self).rejected@.len()
                    + 1 && final(self).rejected@.drop_last() == old(self).rejected@
                    && final(self).rejected@.last().id == id && !final(self).rejected@.last().permanent
                    && final(self).rejected@.last().error@ == db_error_message(outcome->Err_0),
                Err(error) => go_on == Err::<(), TodoDbError>(error) && *final(self) == *old(self),
            },
    {
        match outcome {
            Ok(()) => {
                self.applied.push(id);
                Ok(())
            },
            Err(error) => match error {
                TodoDbError::Sqlite(_) => {
                    let message = error.message();
                    self.rejected.push(RejectedWrite { id, error: message, permanent: false });
                    Ok(())
                },
                _ => Err(error),
            },
        }
    }
}

/// The text a status is stored as.
pub fn status_to_text(status: TodoStatus) -> (text: &'static str)
    ensures
        text@ == (match status {
            TodoStatus::Open => "open"@,
            TodoStatus::Completed => "completed"@,
        }),
{
    match status {
        TodoStatus::Open => "open",
        TodoStatus::Completed => "completed",
    }
}

/// The status a stored text names. Unknown values degrade to open, so a
/// corrupted row still shows up as an actionable task instead of failing the
/// whole read.
pub fn status_from_text(value: &str) -> (status: TodoStatus)
    ensures
        status == (if value@ == "completed"@ {
            TodoStatus::Completed
        } else {
            TodoStatus::Open
        }),
{
    if crate::sync::same_text(value, "completed") {
        TodoStatus::Completed
    } else {
        TodoStatus::Open
    }
}

/// SQLite has no boolean type, so the tri-state travels as NULL, 0 and 1;
/// anything but 0 reads as true.
pub fn bool_from_int(value: Option<i64>) -> (flag: Option<bool>)
    ensures
        flag == (match value {
            Some(stored) => Some(stored != 0),
            None => None::<bool>,
        }),
{
    match value {
        Some(stored) => Some(stored != 0),
        None => None,
    }
}

/// The columns added after the first layout, with the type each carries, in
/// the order they are added.
pub open spec fn spec_added_columns() -> Seq<(Seq<char>, Seq<char>)> {
    seq![
        ("notes"@, "TEXT"@),
        ("start_date"@, "TEXT"@),
        ("starts_at"@, "TEXT"@),
        ("ends_at"@, "TEXT"@),
        ("estimated_minutes"@, "INTEGER"@),
        ("recurrence"@, "TEXT"@),
        ("list_id"@, "TEXT"@),
        ("important"@, "INTEGER"@),
        ("urgent"@, "INTEGER"@),
        ("sort_order"@, "REAL"@),
        ("tag_ids"@, "TEXT"@),
        ("subtasks"@, "TEXT"@),
        ("attachments"@, "TEXT"@),
        ("depends_on"@, "TEXT"@),
        ("archived_at"@, "TEXT"@),
    ]
}

/// The columns added after the first layout, with the type each carries.
pub fn added_columns() -> (columns: Vec<(&'static str, &'static str)>)
    ensures
        columns@.len() == spec_added_columns().len(),
        forall|i: int| 0 <= i < columns@.len() ==> columns@[i].0@ == spec_added_columns()[i].0
            && columns@[i].1@ == spec_added_columns()[i].1,
{
    let columns = vec![
        ("notes", "TEXT"),
        ("start_date", "TEXT"),
        ("starts_at", "TEXT"),
        ("ends_at", "TEXT"),
        ("estimated_minutes", "INTEGER"),
        ("recurrence", "TEXT"),
        ("list_id", "TEXT"),
        ("important", "INTEGER"),
        ("urgent", "INTEGER"),
        ("sort_order", "REAL"),
        ("tag_ids", "TEXT"),
        ("subtasks", "TEXT"),
        ("attachments", "TEXT"),
        ("depends_on", "TEXT"),
        ("archived_at", "TEXT"),
    ];
    proof {
        reveal_strlit("notes");
        reveal_strlit("start_date");
        reveal_strlit("starts_at");
        reveal_strlit("ends_at");
        reveal_strlit("estimated_minutes");
        reveal_strlit("recurrence");
        reveal_strlit("list_id");
        reveal_strlit("important");
        reveal_strlit("urgent");
        reveal_strlit("sort_order");
        reveal_strlit("tag_ids");
        reveal_strlit("subtasks");
        reveal_strlit("attachments");
        reveal_strlit("depends_on");
        reveal_strlit("archived_at");
        reveal_strlit("TEXT");
        reveal_strlit("INTEGER");
        reveal_strlit("REAL");
    }
    columns
}

/// The added columns a table with the columns `present` lacks, in the order
/// they are added. The table itself is the evidence, not the recorded
/// revision: a file may carry a number its layout does not match.
pub fn missing_columns(present: &[String]) -> (missing: Vec<(&'static str, &'static str)>)
    ensures
        missing@.map_values(|c: (&'static str, &'static str)| (c.0@, c.1@)) == spec_added_columns().filter(
            |c: (Seq<char>, Seq<char>)| !crate::text::ids_view(present@).contains(c.0),
        ),
{
    let columns = added_columns();
    let ghost wanted = spec_added_columns();
    let ghost lacks = |c: (Seq<char>, Seq<char>)| !crate::text::ids_view(present@).contains(c.0);
    let mut missing: Vec<(&'static str, &'static str)> = Vec::new();
    let mut i: usize = 0;
    proof {
        reveal_with_fuel(Seq::filter, 1);
        assert(missing@.map_values(|c: (&'static str, &'static str)| (c.0@, c.1@)) =~= wanted.take(0).filter(lacks));
    }
    while i < columns.len()
        invariant
            i <= columns@.len(),
            columns@.len() == wanted.len(),
            wanted == spec_added_columns(),
            lacks == (|c: (Seq<char>, Seq<char>)| !crate::text::ids_view(present@).contains(c.0)),
            forall|k: int| 0 <= k < columns@.len() ==> columns@[k].0@ == wanted[k].0
                && columns@[k].1@ == wanted[k].1,
            missing@.map_values(|c: (&'static str, &'static str)| (c.0@, c.1@)) == wanted.take(
                i as int,
            ).filter(lacks),
        decreases columns@.len() - i,
    {
        let (name, column_type) = columns[i];
        let mut owned = String::new();
        push_str(&mut owned, name);
        let present_already = crate::text::contains_id(present, &owned);
        proof {
            assert(wanted.take(i + 1).drop_last() =~= wanted.take(i as int));
            assert(wanted.take(i + 1).last() == wanted[i as int]);
            reveal_with_fuel(Seq::filter, 1);
            assert(crate::text::ids_view(present@).contains(owned@) == crate::text::has_id(
                present@,
                owned@,
            ));
        }
        if !present_already {
            missing.push((name, column_type));
            proof {
                assert(missing@.map_values(|c: (&'static str, &'static str)| (c.0@, c.1@))
                    =~= wanted.take(i as int).filter(lacks).push(wanted[i as int]));
            }
        }
        i = i + 1;
    }
    proof {
        assert(wanted.take(columns@.len() as int) =~= wanted);
    }
    missing
}

/// What opening a file does with its recorded layout revision, once any
/// missing columns are added.
#[derive(Clone, Copy, Debug, PartialEq, Eq, Structural)]
pub enum SchemaStamp {
    /// The recorded revision is this build's: nothing to write.
    Current,
    /// A newer build wrote the file, and it already had every column this
    /// build knows: its extra layout is none of this build's business.
    LeaveNewer,
    /// Record this build's revision — an older file brought up, or a file
    /// that claimed a newer revision while missing columns.
    Record,
}

/// What opening a file does with its recorded revision `stored`, after
/// `added` columns were added to it.
pub fn schema_stamp(stored: i64, added: usize) -> (stamp: SchemaStamp)
    ensures
        stamp == (if stored == SCHEMA_VERSION {
            SchemaStamp::Current
        } else if stored > SCHEMA_VERSION && added == 0 {
            SchemaStamp::LeaveNewer
        } else {
            SchemaStamp::Record
        }),
{
    if stored == SCHEMA_VERSION {
        SchemaStamp::Current
    } else if stored > SCHEMA_VERSION && added == 0 {
        SchemaStamp::LeaveNewer
    } else {
        SchemaStamp::Record
    }
}

/// The platform and version the desktop app reports about itself.
#[derive(Clone, Debug)]
pub struct RuntimeInfo {
    pub platform: String,
    pub app_version: String,
}

/// Where a calendar export went and what it held: no path when there was
/// nothing to export.
#[derive(Clone, Debug)]
pub struct CalendarExport {
    pub path: Option<String>,
    pub event_count: u32,
    pub unrepeatable_recurrences: u32,
}

} // verus!
