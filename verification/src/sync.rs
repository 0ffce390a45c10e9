//! The op-based sync protocol's decisions, apart from the log they are made
//! against.
//!
//! A device sends its outbox; each operation the log has not seen is numbered
//! with the next revision and appended, one it has seen is only acknowledged
//! again, so a device may push its whole outbox as often as it likes without
//! duplicating anything. What is read back out of the log — a stored revision,
//! a kind written as text, a patch that may or may not decode — is turned into
//! a change here, or refused as unreadable rather than guessed at.

use vstd::prelude::*;

use crate::contracts::{
    error_message, request_fault, ContractValidationError, SyncCursor, SyncOperationKind,
    SyncRequest, TodoPatch, TodoSyncChange, TodoSyncOperation,
};
use crate::text::{ids_view, padded_signed, push_padded_signed, push_str};
use vstd::string::StringSliceAdditionalSpecFns;

verus! {

/// What the sync log could not do.
#[derive(Clone, Debug)]
pub enum SyncStoreError {
    /// A previous request panicked while holding the connection lock.
    Poisoned,
    /// SQLite refused the statement.
    Sqlite(String),
    /// A patch could not be turned into the JSON the column stores.
    UnusablePatch(String),
    /// A stored revision does not fit the cursor the protocol speaks, so no
    /// further operation can be numbered.
    UnusableRevision(i64),
}

/// The sentence a log failure is reported with.
pub open spec fn store_error_message(error: SyncStoreError) -> Seq<char> {
    match error {
        SyncStoreError::Poisoned => "the sync log lock is poisoned"@,
        SyncStoreError::Sqlite(message) => "sync log database error: "@ + message@,
        SyncStoreError::UnusablePatch(message) => "the patch is not storable: "@ + message@,
        SyncStoreError::UnusableRevision(revision) => "stored revision "@ + padded_signed(
            revision as int,
            1,
        ) + " is out of range"@,
    }
}

impl SyncStoreError {
    /// The sentence this failure is reported with.
    pub fn message(&self) -> (text: String)
        ensures
            text@ == store_error_message(*self),
    {
        let mut text = String::new();
        match self {
            SyncStoreError::Poisoned => push_str(&mut text, "the sync log lock is poisoned"),
            SyncStoreError::Sqlite(message) => {
                push_str(&mut text, "sync log database error: ");
                push_str(&mut text, message.as_str());
            },
            SyncStoreError::UnusablePatch(message) => {
                push_str(&mut text, "the patch is not storable: ");
                push_str(&mut text, message.as_str());
            },
            SyncStoreError::UnusableRevision(revision) => {
                push_str(&mut text, "stored revision ");
                push_padded_signed(&mut text, *revision, 1);
                push_str(&mut text, " is out of range");
            },
        }
        proof {
            reveal_strlit("the sync log lock is poisoned");
            reveal_strlit("sync log database error: ");
            reveal_strlit("the patch is not storable: ");
            reveal_strlit("stored revision ");
            reveal_strlit(" is out of range");
        }
        text
    }
}

/// Why a sync request was not answered.
#[derive(Clone, Debug)]
pub enum ServerError {
    /// Every revision the cursor can name has been handed out.
    CursorExhausted,
    /// The contract refused what the device sent.
    InvalidRequest(ContractValidationError),
    /// The log could not serve the request.
    Storage(SyncStoreError),
}

impl ServerError {
    /// A log failure, as the request it stopped reports it.
    pub fn from_store(error: SyncStoreError) -> (converted: ServerError)
        ensures
            converted == ServerError::Storage(error),
    {
        ServerError::Storage(error)
    }

    /// The HTTP status a refusal is answered with: 400 when the device sent
    /// something the contract refuses, 500 when the server could not serve it.
    pub fn status_code(&self) -> (status: u16)
        ensures
            status == (if self is InvalidRequest {
                400u16
            } else {
                500u16
            }),
    {
        match self {
            ServerError::InvalidRequest(_) => 400,
            _ => 500,
        }
    }

    /// What goes out on the wire. The device keeps the operations it could not
    /// get acknowledged, so a server-side reason stays in the server's log.
    pub fn public_message(&self) -> (text: String)
        ensures
            text@ == match *self {
                ServerError::InvalidRequest(error) => error_message(error),
                _ => "sync state is unavailable"@,
            },
    {
        let mut text = String::new();
        match self {
            ServerError::InvalidRequest(error) => push_str(&mut text, error.message()),
            _ => push_str(&mut text, "sync state is unavailable"),
        }
        proof {
            reveal_strlit("sync state is unavailable");
        }
        text
    }
}

/// A request is served only when the contract accepts it.
pub fn check_request(request: &SyncRequest) -> (checked: Result<(), ServerError>)
    ensures
        match request_fault(*request) {
            Some(error) => checked == Err::<(), ServerError>(ServerError::InvalidRequest(error)),
            None => checked == Ok::<(), ServerError>(()),
        },
{
    match request.validate() {
        Ok(()) => Ok(()),
        Err(error) => Err(ServerError::InvalidRequest(error)),
    }
}

/// The operation ids of a request, in order.
pub open spec fn operation_ids(operations: Seq<TodoSyncOperation>) -> Seq<Seq<char>> {
    Seq::new(operations.len(), |i: int| operations[i].operation_id@)
}

/// Whether no earlier operation of the request carries the `i`-th one's id.
pub open spec fn first_of_its_id(ids: Seq<Seq<char>>, i: int) -> bool {
    forall|j: int| 0 <= j < i ==> ids[j] != ids[i]
}

/// Whether the `i`-th operation is new to the log: the log did not hold its
/// id before the request, and no earlier operation of the request carried it.
pub open spec fn is_new_operation(ids: Seq<Seq<char>>, stored: Seq<bool>, i: int) -> bool {
    !stored[i] && first_of_its_id(ids, i)
}

/// How many of the first `n` operations are new to the log.
pub open spec fn new_operation_count(ids: Seq<Seq<char>>, stored: Seq<bool>, n: int) -> nat
    decreases n,
{
    if n <= 0 {
        0
    } else {
        new_operation_count(ids, stored, n - 1) + if is_new_operation(ids, stored, n - 1) {
            1nat
        } else {
            0nat
        }
    }
}

/// What the first `n` operations do to a log standing at `revision`: the
/// revision it stands at afterwards, and each new operation's place in the
/// request with the revision it is stored at, in request order. `None` when
/// the cursor can name no further revision for a new operation.
pub open spec fn planned(revision: int, ids: Seq<Seq<char>>, stored: Seq<bool>, n: int) -> Option<(int, Seq<(int, int)>)>
    decreases n,
{
    if n <= 0 {
        Some((revision, seq![]))
    } else {
        match planned(revision, ids, stored, n - 1) {
            None => None,
            Some((at, appended)) => if is_new_operation(ids, stored, n - 1) {
                if at >= u32::MAX {
                    None
                } else {
                    Some((at + 1, appended.push((n - 1, at + 1))))
                }
            } else {
                Some((at, appended))
            },
        }
    }
}

/// What a request's operations do to the log.
pub struct OperationPlan {
    /// The revision the log stands at afterwards: the device's next cursor.
    pub next_cursor: SyncCursor,
    /// The operations to append, by their place in the request, each with the
    /// revision it is stored at, in request order.
    pub appended: Vec<(usize, SyncCursor)>,
    /// Every operation's id, in request order: each is acknowledged, whether it
    /// is appended now or the log held it already.
    pub acknowledged: Vec<String>,
}

/// A request's operations against the log as it stands at `revision`;
/// `stored` says, for each operation, whether the log held its id before the
/// request.
///
/// An operation the log holds, or that repeats an earlier operation of the
/// same request, is acknowledged and nothing is appended; a new one is
/// numbered with the next revision. When the cursor can name no further
/// revision the request fails, and nothing of it is to be appended.
pub fn plan_operations(revision: SyncCursor, operations: &[TodoSyncOperation], stored: &[bool]) -> (plan: Result<OperationPlan, ServerError>)
    requires
        stored@.len() == operations@.len(),
    ensures
        match planned(revision as int, operation_ids(operations@), stored@, operations@.len() as int) {
            None => plan matches Err(ServerError::CursorExhausted),
            Some((at, appended)) => plan matches Ok(found) && found.next_cursor == at
                && found.appended@.len() == appended.len() && (forall|k: int|
                0 <= k < appended.len() ==> (#[trigger] found.appended@[k].0 as int, found.appended@[k].1 as int)
                == appended[k]) && ids_view(found.acknowledged@) == operation_ids(operations@),
        },
{
    let ghost ids = operation_ids(operations@);
    let mut at: SyncCursor = revision;
    let mut appended: Vec<(usize, SyncCursor)> = Vec::new();
    let mut acknowledged: Vec<String> = Vec::new();
    let mut i: usize = 0;
    while i < operations.len()
        invariant
            i <= operations@.len(),
            stored@.len() == operations@.len(),
            ids == operation_ids(operations@),
            planned(revision as int, ids, stored@, i as int) == Some(
                (at as int, Seq::new(appended@.len(), |k: int| (appended@[k].0 as int, appended@[k].1 as int))),
            ),
            ids_view(acknowledged@) == ids.take(i as int),
        decreases operations.len() - i,
    {
        let ghost before = Seq::new(appended@.len(), |k: int| (appended@[k].0 as int, appended@[k].1 as int));
        let id = operations[i].operation_id.as_str();
        let mut first = true;
        let mut j: usize = 0;
        while j < i
            invariant
                j <= i,
                i < operations@.len(),
                ids == operation_ids(operations@),
                id@ == ids[i as int],
                first == (forall|k: int| 0 <= k < j ==> ids[k] != ids[i as int]),
            decreases i - j,
        {
            proof {
                assert(ids[j as int] == operations@[j as int].operation_id@);
            }
            if same_text(operations[j].operation_id.as_str(), id) {
                first = false;
            }
            j = j + 1;
        }
        if !stored[i] && first {
            match crate::next_sync_cursor(at) {
                None => {
                    proof {
                        lemma_planned_stays_none(revision as int, ids, stored@, i as int + 1, operations@.len() as int);
                    }
                    return Err(ServerError::CursorExhausted);
                },
                Some(next) => {
                    at = next;
                    appended.push((i, next));
                    proof {
                        assert(Seq::new(appended@.len(), |k: int| (appended@[k].0 as int, appended@[k].1 as int))
                            =~= before.push((i as int, next as int)));
                    }
                },
            }
        }
        let ghost acknowledged_before = acknowledged@;
        acknowledged.push(operations[i].operation_id.clone());
        proof {
            assert(ids[i as int] == operations@[i as int].operation_id@);
            assert(acknowledged@ == acknowledged_before.push(operations@[i as int].operation_id));
            assert(ids_view(acknowledged@) =~= ids_view(acknowledged_before).push(ids[i as int]));
            assert(ids_view(acknowledged@) =~= ids.take(i as int + 1));
        }
        i = i + 1;
    }
    proof {
        assert(ids.take(operations@.len() as int) =~= ids);
    }
    Ok(OperationPlan { next_cursor: at, appended, acknowledged })
}

proof fn lemma_planned_stays_none(revision: int, ids: Seq<Seq<char>>, stored: Seq<bool>, n: int, m: int)
    requires
        n <= m,
        planned(revision, ids, stored, n) is None,
    ensures
        planned(revision, ids, stored, m) is None,
    decreases m - n,
{
    if n < m {
        lemma_planned_stays_none(revision, ids, stored, n + 1, m);
    }
}

/// The shape of a plan: the log moves on by exactly the number of new
/// operations, they are stored at the revisions that follow `revision` one by
/// one, in request order, each at the place of a new operation; and the
/// request fails exactly when those revisions would run past the last one the
/// cursor can name.
pub proof fn lemma_plan_numbers_new_operations_in_turn(revision: int, ids: Seq<Seq<char>>, stored: Seq<bool>, n: int)
    requires
        0 <= revision <= u32::MAX,
        0 <= n <= ids.len(),
        n <= stored.len(),
    ensures
        planned(revision, ids, stored, n) is None <==> revision + new_operation_count(ids, stored, n) > u32::MAX,
        planned(revision, ids, stored, n) matches Some((at, appended)) ==> {
            &&& at == revision + appended.len()
            &&& appended.len() == new_operation_count(ids, stored, n)
            &&& forall|k: int| 0 <= k < appended.len() ==> {
                &&& (#[trigger] appended[k]).1 == revision + k + 1
                &&& 0 <= appended[k].0 < n
                &&& is_new_operation(ids, stored, appended[k].0)
            }
            &&& forall|k: int, l: int| 0 <= k < l < appended.len() ==> appended[k].0 < appended[l].0
            &&& forall|i: int| 0 <= i < n && is_new_operation(ids, stored, i) ==> exists|k: int|
                0 <= k < appended.len() && (#[trigger] appended[k]).0 == i
        },
    decreases n,
{
    if n > 0 {
        lemma_plan_numbers_new_operations_in_turn(revision, ids, stored, n - 1);
        match planned(revision, ids, stored, n - 1) {
            None => {},
            Some((at, appended)) => {
                if is_new_operation(ids, stored, n - 1) && at < u32::MAX {
                    let grown = appended.push((n - 1, at + 1));
                    assert forall|i: int| 0 <= i < n && is_new_operation(ids, stored, i) implies exists|k: int|
                        0 <= k < grown.len() && (#[trigger] grown[k]).0 == i by {
                        if i == n - 1 {
                            assert(grown[appended.len() as int].0 == i);
                        } else {
                            let k = choose|k: int| 0 <= k < appended.len() && (#[trigger] appended[k]).0 == i;
                            assert(grown[k].0 == i);
                        }
                    }
                }
            },
        }
    }
}

/// The log as a request leaves it, for each operation: whether it holds the
/// operation's id, because it held it before or the request appended an
/// operation with that id.
pub open spec fn held_after(ids: Seq<Seq<char>>, stored: Seq<bool>) -> Seq<bool> {
    Seq::new(
        stored.len(),
        |i: int|
            stored[i] || exists|j: int| 0 <= j < stored.len() && ids[j] == ids[i] && is_new_operation(ids, stored, j),
    )
}

/// Pushing the same request again appends nothing: whatever revision the log
/// has reached since, every operation is acknowledged and the cursor stays
/// where it is. A device may push its whole outbox as often as it likes.
pub proof fn lemma_a_replayed_request_appends_nothing(first: int, later: int, ids: Seq<Seq<char>>, stored: Seq<bool>)
    requires
        0 <= first <= u32::MAX,
        0 <= later <= u32::MAX,
        ids.len() == stored.len(),
        planned(first, ids, stored, ids.len() as int) is Some,
    ensures
        planned(later, ids, held_after(ids, stored), ids.len() as int) == Some((later, Seq::<(int, int)>::empty())),
{
    let again = held_after(ids, stored);
    assert forall|i: int| 0 <= i < ids.len() implies !is_new_operation(ids, again, i) by {
        assert(again[i] == (stored[i] || exists|j: int|
            0 <= j < stored.len() && ids[j] == ids[i] && is_new_operation(ids, stored, j)));
        if !again[i] {
            assert(!stored[i]);
            if first_of_its_id(ids, i) {
                assert(is_new_operation(ids, stored, i));
                assert(0 <= i < stored.len() && ids[i] == ids[i]);
                assert(false);
            }
        }
    }
    lemma_nothing_new_plans_nothing(later, ids, again, ids.len() as int);
}

proof fn lemma_nothing_new_plans_nothing(revision: int, ids: Seq<Seq<char>>, stored: Seq<bool>, n: int)
    requires
        0 <= n <= ids.len(),
        forall|i: int| 0 <= i < n ==> !is_new_operation(ids, stored, i),
    ensures
        planned(revision, ids, stored, n) == Some((revision, Seq::<(int, int)>::empty())),
    decreases n,
{
    if n > 0 {
        lemma_nothing_new_plans_nothing(revision, ids, stored, n - 1);
        assert(!is_new_operation(ids, stored, n - 1));
    }
}

/// The text a kind is stored as.
pub open spec fn kind_text(kind: SyncOperationKind) -> Seq<char> {
    match kind {
        SyncOperationKind::Upsert => "upsert"@,
        SyncOperationKind::Delete => "delete"@,
    }
}

/// The text a kind is stored as.
pub fn kind_to_text(kind: SyncOperationKind) -> (text: &'static str)
    ensures
        text@ == kind_text(kind),
{
    match kind {
        SyncOperationKind::Upsert => "upsert",
        SyncOperationKind::Delete => "delete",
    }
}

/// The kind a stored text names. An unknown kind has no safe reading: upsert
/// and delete are opposite actions, so guessing one would apply a change
/// nobody asked for.
pub fn kind_from_text(value: &str) -> (kind: Option<SyncOperationKind>)
    ensures
        kind == (if value@ == "upsert"@ {
            Some(SyncOperationKind::Upsert)
        } else if value@ == "delete"@ {
            Some(SyncOperationKind::Delete)
        } else {
            None::<SyncOperationKind>
        }),
{
    proof {
        reveal_strlit("upsert");
        reveal_strlit("delete");
    }
    if same_text(value, "upsert") {
        Some(SyncOperationKind::Upsert)
    } else if same_text(value, "delete") {
        Some(SyncOperationKind::Delete)
    } else {
        None
    }
}

/// Whether two texts are the same.
pub fn same_text(value: &str, expected: &str) -> (same: bool)
    ensures
        same == (value@ == expected@),
{
    let a = value.as_bytes();
    let b = expected.as_bytes();
    proof {
        vstd::utf8::encode_utf8_decode_utf8(value@);
    }
    if a.len() != b.len() {
        proof {
            if value@ == expected@ {
                assert(a@ == b@);
            }
        }
        return false;
    }
    let mut i: usize = 0;
    while i < a.len()
        invariant
            i <= a@.len(),
            a@.len() == b@.len(),
            a@ == value.spec_bytes(),
            b@ == expected.spec_bytes(),
            forall|k: int| 0 <= k < i ==> a@[k] == b@[k],
        decreases a@.len() - i,
    {
        if a[i] != b[i] {
            proof {
                if value@ == expected@ {
                    assert(a@ == b@);
                }
            }
            return false;
        }
        i = i + 1;
    }
    proof {
        assert(a@ =~= b@);
        vstd::utf8::encode_utf8_decode_utf8(expected@);
    }
    true
}

/// The revision a stored number names, when it fits the cursor.
pub fn revision_from_stored(stored: i64) -> (revision: Option<SyncCursor>)
    ensures
        revision == (if 0 <= stored <= u32::MAX {
            Some(stored as u32)
        } else {
            None::<u32>
        }),
{
    if 0 <= stored && stored <= u32::MAX as i64 {
        Some(stored as u32)
    } else {
        None
    }
}

/// The revision most recently handed out, read from what the log stores;
/// one outside the cursor's range stops the log from numbering anything.
pub fn latest_revision_from(stored: i64) -> (revision: Result<SyncCursor, SyncStoreError>)
    ensures
        0 <= stored <= u32::MAX ==> revision == Ok::<SyncCursor, SyncStoreError>(stored as u32),
        !(0 <= stored <= u32::MAX) ==> (revision matches Err(SyncStoreError::UnusableRevision(
            value,
        )) && value == stored),
{
    match revision_from_stored(stored) {
        Some(revision) => Ok(revision),
        None => Err(SyncStoreError::UnusableRevision(stored)),
    }
}

/// A stored patch column: empty, holding JSON that decodes to a patch, or
/// holding something that does not.
#[derive(Clone, Debug)]
pub enum StoredPatch {
    Absent,
    Read(TodoPatch),
    Unreadable,
}

/// One change rebuilt from its row, or `None` when no reading of the stored
/// values is honest: a revision the cursor cannot name, a kind that is
/// neither "upsert" nor "delete", or a patch that does not decode. Such a row
/// is skipped and reported rather than misreported to every device.
pub fn change_from_row(
    stored_revision: i64,
    operation_id: String,
    todo_id: String,
    kind: &str,
    occurred_at: String,
    patch: StoredPatch,
) -> (change: Option<TodoSyncChange>)
    ensures
        match (revision_of(stored_revision), kind_of(kind@), patch) {
            (Some(revision), Some(kind), StoredPatch::Absent) => change == Some(
                TodoSyncChange { operation_id, todo_id, kind, occurred_at, patch: None, revision },
            ),
            (Some(revision), Some(kind), StoredPatch::Read(read)) => change == Some(
                TodoSyncChange {
                    operation_id,
                    todo_id,
                    kind,
                    occurred_at,
                    patch: Some(read),
                    revision,
                },
            ),
            _ => change is None,
        },
{
    let revision = match revision_from_stored(stored_revision) {
        Some(revision) => revision,
        None => return None,
    };
    let kind = match kind_from_text(kind) {
        Some(kind) => kind,
        None => return None,
    };
    let patch = match patch {
        StoredPatch::Absent => None,
        StoredPatch::Read(read) => Some(read),
        StoredPatch::Unreadable => return None,
    };
    Some(TodoSyncChange { operation_id, todo_id, kind, occurred_at, patch, revision })
}

/// The revision a stored number names, when it fits the cursor.
pub open spec fn revision_of(stored: i64) -> Option<u32> {
    if 0 <= stored <= u32::MAX {
        Some(stored as u32)
    } else {
        None
    }
}

/// The kind a stored text names.
pub open spec fn kind_of(text: Seq<char>) -> Option<SyncOperationKind> {
    if text == "upsert"@ {
        Some(SyncOperationKind::Upsert)
    } else if text == "delete"@ {
        Some(SyncOperationKind::Delete)
    } else {
        None
    }
}

/// Storing a kind as text and reading it back gives the kind.
pub proof fn lemma_kind_text_round_trip(kind: SyncOperationKind)
    ensures
        kind_of(kind_text(kind)) == Some(kind),
{
    reveal_strlit("upsert");
    reveal_strlit("delete");
    assert("upsert"@ != "delete"@) by {
        assert("upsert"@[0] != "delete"@[0]);
    }
}

} // verus!
