//! The rules of scheduled snapshots of the sync log: what a snapshot is
//! called, which files in the snapshot directory are snapshots, and which of
//! them the retention rule removes.
//!
//! A snapshot's name is fixed width and coarse to fine, so sorting the names
//! by text sorts the snapshots by age — which is all the retention rule needs
//! to know. Retention is counted rather than dated on purpose: a server that
//! was down for a week would, under a dated rule, come back and delete the
//! only copies it has.

use vstd::prelude::*;

use crate::sync::{store_error_message, SyncStoreError};
use crate::text::{
    decimal, ids_view, lemma_text_order_is_total, padded, push_char, push_decimal, push_padded,
    push_str, sort_texts, text_order,
};

verus! {

/// How often a snapshot is taken when nothing else is configured: hourly.
pub const DEFAULT_INTERVAL_SECONDS: u64 = 3600;

/// How many snapshots are kept when nothing else is configured: three days
/// of hourly snapshots, enough to cover a weekend.
pub const DEFAULT_KEEP: usize = 72;

/// How many snapshots may share one millisecond before naming gives up.
pub const MAX_NAMES_PER_MILLISECOND: u32 = 100;

/// What the snapshot schedule does and where it puts things.
#[derive(Clone, Debug)]
pub struct BackupPolicy {
    /// The directory snapshots are written to, created when missing.
    pub directory: String,
    /// How long to wait between snapshots, in seconds.
    pub interval_seconds: u64,
    /// How many snapshots to keep; the oldest beyond it are removed.
    pub keep: usize,
}

/// Why a snapshot or a restore did not happen.
#[derive(Clone, Debug)]
pub enum BackupError {
    /// The snapshot directory could not be created or listed.
    Directory { path: String, reason: String },
    /// A file could not be copied, moved or removed.
    File { path: String, reason: String },
    /// The log or the snapshot refused to be read or copied.
    Store(SyncStoreError),
    /// The snapshot named for a restore is not there.
    MissingSnapshot(String),
    /// Something still has the log open, so replacing it would be replacing a
    /// file out from under its owner.
    TargetInUse(String),
}

/// The sentence each failure is reported with.
pub open spec fn backup_error_message(error: BackupError) -> Seq<char> {
    match error {
        BackupError::Directory { path, reason } => "the snapshot directory "@ + path@
            + " is unusable: "@ + reason@,
        BackupError::File { path, reason } => "the file "@ + path@ + " is unusable: "@ + reason@,
        BackupError::Store(error) => store_error_message(error),
        BackupError::MissingSnapshot(path) => "there is no snapshot at "@ + path@,
        BackupError::TargetInUse(path) => "the sync log at "@ + path@
            + " is still open; stop the server before restoring"@,
    }
}

impl BackupError {
    /// A log failure, as the snapshot or restore it stopped reports it.
    pub fn from_store(error: SyncStoreError) -> (converted: BackupError)
        ensures
            converted == BackupError::Store(error),
    {
        BackupError::Store(error)
    }

    /// The sentence this failure is reported with.
    pub fn message(&self) -> (text: String)
        ensures
            text@ == backup_error_message(*self),
    {
        let mut text = String::new();
        match self {
            BackupError::Directory { path, reason } => {
                push_str(&mut text, "the snapshot directory ");
                push_str(&mut text, path.as_str());
                push_str(&mut text, " is unusable: ");
                push_str(&mut text, reason.as_str());
            },
            BackupError::File { path, reason } => {
                push_str(&mut text, "the file ");
                push_str(&mut text, path.as_str());
                push_str(&mut text, " is unusable: ");
                push_str(&mut text, reason.as_str());
            },
            BackupError::Store(error) => {
                text = error.message();
            },
            BackupError::MissingSnapshot(path) => {
                push_str(&mut text, "there is no snapshot at ");
                push_str(&mut text, path.as_str());
            },
            BackupError::TargetInUse(path) => {
                push_str(&mut text, "the sync log at ");
                push_str(&mut text, path.as_str());
                push_str(&mut text, " is still open; stop the server before restoring");
            },
        }
        proof {
            reveal_strlit("the snapshot directory ");
            reveal_strlit(" is unusable: ");
            reveal_strlit("the file ");
            reveal_strlit("there is no snapshot at ");
            reveal_strlit("the sync log at ");
            reveal_strlit(" is still open; stop the server before restoring");
        }
        text
    }
}

/// A moment as a snapshot's name reads it, in UTC.
#[derive(Clone, Copy, Debug, PartialEq, Eq, Structural)]
pub struct Moment {
    pub year: i32,
    pub month: u8,
    pub day: u8,
    pub hour: u8,
    pub minute: u8,
    pub second: u8,
    pub millisecond: u16,
}

/// What [`snapshot_stem`] writes:
/// `sync-log-{year:04}{month:02}{day:02}T{hour:02}{minute:02}{second:02}{millisecond:03}Z`.
pub open spec fn spec_snapshot_stem(moment: Moment) -> Seq<char> {
    "sync-log-"@ + crate::text::padded_signed(moment.year as int, 4) + padded(moment.month as nat, 2)
        + padded(moment.day as nat, 2) + seq!['T'] + padded(moment.hour as nat, 2) + padded(
        moment.minute as nat,
        2,
    ) + padded(moment.second as nat, 2) + padded(moment.millisecond as nat, 3) + seq!['Z']
}

/// The name a snapshot taken at `moment` goes by, without its extension.
pub fn snapshot_stem(moment: Moment) -> (stem: String)
    ensures
        stem@ == spec_snapshot_stem(moment),
{
    let mut stem = String::new();
    push_str(&mut stem, "sync-log-");
    crate::text::push_padded_signed(&mut stem, moment.year as i64, 4);
    push_padded(&mut stem, moment.month as u64, 2);
    push_padded(&mut stem, moment.day as u64, 2);
    push_char(&mut stem, 'T');
    push_padded(&mut stem, moment.hour as u64, 2);
    push_padded(&mut stem, moment.minute as u64, 2);
    push_padded(&mut stem, moment.second as u64, 2);
    push_padded(&mut stem, moment.millisecond as u64, 3);
    push_char(&mut stem, 'Z');
    proof {
        reveal_strlit("sync-log-");
    }
    stem
}

/// The file name the `attempt`-th try at a free name for `stem` uses: the
/// stem itself first, then the stem with a counter.
pub open spec fn spec_snapshot_file_name(stem: Seq<char>, attempt: u32) -> Seq<char> {
    if attempt == 0 {
        stem + ".sqlite3"@
    } else {
        stem + seq!['-'] + decimal(attempt as nat) + ".sqlite3"@
    }
}

/// The file name the `attempt`-th try at a free name for `stem` uses.
pub fn snapshot_file_name(stem: &str, attempt: u32) -> (name: String)
    ensures
        name@ == spec_snapshot_file_name(stem@, attempt),
{
    let mut name = String::new();
    push_str(&mut name, stem);
    if attempt != 0 {
        push_char(&mut name, '-');
        push_decimal(&mut name, attempt as u64);
    }
    push_str(&mut name, ".sqlite3");
    proof {
        reveal_strlit(".sqlite3");
    }
    name
}

/// Whether a file in the snapshot directory is a snapshot. Anything else
/// there is somebody else's file and is left alone, deleting included.
pub open spec fn spec_is_snapshot_name(name: Seq<char>) -> bool {
    &&& name.len() >= "sync-log-"@.len()
    &&& name.subrange(0, "sync-log-"@.len() as int) == "sync-log-"@
    &&& name.len() >= ".sqlite3"@.len()
    &&& name.subrange(name.len() - ".sqlite3"@.len(), name.len() as int) == ".sqlite3"@
}

/// Whether a file in the snapshot directory is a snapshot.
pub fn is_snapshot_name(name: &str) -> (snapshot: bool)
    ensures
        snapshot == spec_is_snapshot_name(name@),
{
    let chars = name.unicode_len();
    let prefix = "sync-log-";
    let extension = ".sqlite3";
    proof {
        reveal_strlit("sync-log-");
        reveal_strlit(".sqlite3");
    }
    if chars < 9 || chars < 8 {
        return false;
    }
    let starts = same_chars(name, 0, prefix);
    let ends = same_chars(name, chars - 8, extension);
    starts && ends
}

/// Whether the characters of `value` from `start` on begin with `piece`.
fn same_chars(value: &str, start: usize, piece: &str) -> (same: bool)
    requires
        start + piece@.len() <= value@.len(),
    ensures
        same == (value@.subrange(start as int, start + piece@.len()) == piece@),
{
    let n = piece.unicode_len();
    let total = value.unicode_len();
    let mut i: usize = 0;
    while i < n
        invariant
            n == piece@.len(),
            total == value@.len(),
            start + n <= value@.len(),
            i <= n,
            forall|k: int| 0 <= k < i ==> value@[start + k] == piece@[k],
        decreases n - i,
    {
        if value.get_char(start + i) != piece.get_char(i) {
            proof {
                assert(value@.subrange(start as int, start + n)[i as int] != piece@[i as int]);
            }
            return false;
        }
        i = i + 1;
    }
    assert(value@.subrange(start as int, start + n) =~= piece@);
    true
}

/// How many of `count` snapshots the retention rule removes: the oldest
/// beyond `keep`, where `keep` is read as at least one — a policy that would
/// leave no copies at all is a configuration mistake, and the snapshot just
/// taken is not the place to honour it.
pub open spec fn spec_expired_count(count: nat, keep: nat) -> nat {
    let kept = if keep >= 1 {
        keep
    } else {
        1
    };
    if count <= kept {
        0
    } else {
        (count - kept) as nat
    }
}

/// Pruning keeps the newest `keep` snapshots, and never leaves the directory
/// without one: of `count` snapshots, as many are left as the policy keeps
/// (at least one) or all of them when there are fewer, and at least one is
/// left whenever there was one.
pub proof fn lemma_pruning_keeps_the_newest_and_never_empties(count: nat, keep: nat)
    ensures
        spec_expired_count(count, keep) <= count,
        count - spec_expired_count(count, keep) == if count <= keep || count == 0 {
            count as int
        } else if keep == 0 {
            1int
        } else {
            keep as int
        },
        count > 0 ==> spec_expired_count(count, keep) < count,
{
}

/// The snapshots the retention rule removes from `snapshots`, which are
/// listed oldest first: the oldest, until at most `keep` are left.
pub fn expired_snapshots(snapshots: &[String], keep: usize) -> (expired: Vec<String>)
    ensures
        expired@.len() == spec_expired_count(snapshots@.len(), keep as nat),
        forall|i: int| 0 <= i < expired@.len() ==> expired@[i]@ == snapshots@[i]@,
{
    let kept = if keep >= 1 {
        keep
    } else {
        1
    };
    let mut expired: Vec<String> = Vec::new();
    if snapshots.len() <= kept {
        return expired;
    }
    let count = snapshots.len() - kept;
    let mut i: usize = 0;
    while i < count
        invariant
            i <= count,
            count <= snapshots@.len(),
            expired@.len() == i,
            forall|k: int| 0 <= k < i ==> expired@[k]@ == snapshots@[k]@,
        decreases count - i,
    {
        expired.push(snapshots[i].clone());
        i = i + 1;
    }
    expired
}

/// The snapshots among `names`, in the order they are listed.
pub open spec fn snapshot_names_in(names: Seq<Seq<char>>) -> Seq<Seq<char>>
    decreases names.len(),
{
    if names.len() == 0 {
        seq![]
    } else if spec_is_snapshot_name(names.last()) {
        snapshot_names_in(names.drop_last()).push(names.last())
    } else {
        snapshot_names_in(names.drop_last())
    }
}

/// What pruning removes from a directory holding `names`: its snapshots in
/// the order of their names, which is the order they were taken in, less the
/// newest `keep` (at least one).
pub open spec fn spec_pruned(names: Seq<Seq<char>>, keep: nat) -> Seq<Seq<char>> {
    let snapshots = snapshot_names_in(names).sort_by(text_order());
    snapshots.take(spec_expired_count(snapshots.len(), keep) as int)
}

/// The files pruning removes from a directory holding `names`, oldest first:
/// every snapshot but the newest `keep`; anything that is not a snapshot is
/// left alone.
pub fn snapshots_to_prune(names: &[String], keep: usize) -> (pruned: Vec<String>)
    ensures
        ids_view(pruned@) == spec_pruned(ids_view(names@), keep as nat),
{
    let mut snapshots: Vec<String> = Vec::new();
    let mut i: usize = 0;
    while i < names.len()
        invariant
            i <= names@.len(),
            ids_view(snapshots@) == snapshot_names_in(ids_view(names@.take(i as int))),
        decreases names.len() - i,
    {
        let ghost taken = ids_view(names@.take(i as int));
        proof {
            assert(names@.take(i + 1) =~= names@.take(i as int).push(names@[i as int]));
            assert(ids_view(names@.take(i + 1)) =~= taken.push(names@[i as int]@));
            assert(taken.push(names@[i as int]@).drop_last() =~= taken);
        }
        if is_snapshot_name(names[i].as_str()) {
            let ghost before = snapshots@;
            snapshots.push(names[i].clone());
            proof {
                assert(ids_view(snapshots@) =~= ids_view(before).push(names@[i as int]@));
            }
        }
        i = i + 1;
    }
    proof {
        assert(names@.take(names@.len() as int) =~= names@);
    }
    let sorted = sort_texts(&snapshots);
    let ghost wanted = snapshot_names_in(ids_view(names@)).sort_by(text_order());
    proof {
        lemma_text_order_is_total();
        snapshot_names_in(ids_view(names@)).lemma_sort_by_ensures(text_order());
        vstd::seq_lib::lemma_sorted_unique(ids_view(sorted@), wanted, text_order());
    }
    let expired = expired_snapshots(&sorted, keep);
    proof {
        assert(ids_view(expired@) =~= wanted.take(spec_expired_count(wanted.len(), keep as nat) as int));
    }
    expired
}

} // verus!
