//! The mathematical model of the store: version histories, lock tables, and
//! the modifications that transform them.

use crate::lock::LockView;
use crate::timestamp::TimeStamp;
use crate::write::{WriteType, WriteView};
use vstd::prelude::*;

verus! {

/// The committed versions of all keys: each is stored under its key and its
/// commit timestamp.
pub type WriteMap = Map<(Seq<u8>, TimeStamp), WriteView>;

/// The locks of all keys: a key has at most one.
pub type LockMap = Map<Seq<u8>, LockView>;

/// The state of the store as one reader sees it.
pub struct SnapshotView {
    pub writes: WriteMap,
    pub locks: LockMap,
}

/// One pending modification of the store.
pub enum ModifyView {
    PutWrite { key: Seq<u8>, commit_ts: TimeStamp, write: WriteView },
    DeleteWrite { key: Seq<u8>, commit_ts: TimeStamp },
    PutLock { key: Seq<u8>, lock: LockView },
    DeleteLock { key: Seq<u8> },
}

impl SnapshotView {
    /// The store that holds nothing.
    pub open spec fn empty() -> SnapshotView {
        SnapshotView { writes: Map::empty(), locks: Map::empty() }
    }

    /// The store after one modification.
    pub open spec fn apply(self, m: ModifyView) -> SnapshotView {
        match m {
            ModifyView::PutWrite { key, commit_ts, write } => SnapshotView {
                writes: self.writes.insert((key, commit_ts), write),
                ..self
            },
            ModifyView::DeleteWrite { key, commit_ts } => SnapshotView {
                writes: self.writes.remove((key, commit_ts)),
                ..self
            },
            ModifyView::PutLock { key, lock } => SnapshotView {
                locks: self.locks.insert(key, lock),
                ..self
            },
            ModifyView::DeleteLock { key } => SnapshotView {
                locks: self.locks.remove(key),
                ..self
            },
        }
    }

    /// The store after a sequence of modifications, applied in order.
    pub open spec fn apply_all(self, ms: Seq<ModifyView>) -> SnapshotView
        decreases ms.len(),
    {
        if ms.len() == 0 {
            self
        } else {
            self.apply_all(ms.drop_last()).apply(ms.last())
        }
    }

    /// The lock that the store holds for `key`, if any.
    pub open spec fn lock_of(self, key: Seq<u8>) -> Option<LockView> {
        if self.locks.contains_key(key) {
            Some(self.locks[key])
        } else {
            None
        }
    }
}

/// The newest version of `key` that was committed at or before `ts`, with its
/// commit timestamp.
pub open spec fn seek_write(writes: WriteMap, key: Seq<u8>, ts: u64) -> Option<
    (TimeStamp, WriteView),
>
    decreases ts,
{
    let at = (key, TimeStamp(ts));
    if writes.contains_key(at) {
        Some((TimeStamp(ts), writes[at]))
    } else if ts == 0 {
        None
    } else {
        seek_write(writes, key, (ts - 1) as u64)
    }
}

/// The record that gives `key` its value at `ts`: going back from `ts`, the
/// first version that is a `Put` or a `Delete` decides, and only a `Put`
/// gives a value. `Lock` and `Rollback` records are passed over.
pub open spec fn get_write(writes: WriteMap, key: Seq<u8>, ts: u64) -> Option<WriteView>
    decreases ts,
{
    let at = (key, TimeStamp(ts));
    if writes.contains_key(at) && writes[at].write_type == WriteType::Put {
        Some(writes[at])
    } else if writes.contains_key(at) && writes[at].write_type == WriteType::Delete {
        None
    } else if ts == 0 {
        None
    } else {
        get_write(writes, key, (ts - 1) as u64)
    }
}

/// Whether `key` holds a value at `ts`.
pub open spec fn key_exists(writes: WriteMap, key: Seq<u8>, ts: u64) -> bool {
    get_write(writes, key, ts) is Some
}

/// What a key's history says of one transaction.
pub enum CommitRecordView {
    /// A record written by the transaction itself: its commit or its
    /// rollback.
    SingleRecord { commit_ts: TimeStamp, write: WriteView },
    /// The rollback of the transaction, folded into the record that another
    /// transaction committed at the transaction's start timestamp.
    OverlappedRollback { commit_ts: TimeStamp },
    /// No trace of the transaction. `overlapped_write` is the record of
    /// another transaction committed at the transaction's start timestamp,
    /// where there is one.
    NoRecord { overlapped_write: Option<WriteView> },
}

/// The commit record of the transaction that started at `start_ts`, found by
/// going through the versions of `key` from `seek_ts` downwards. The search
/// ends at the first version that the transaction wrote, or else at the first
/// version committed at or before `start_ts`.
pub open spec fn commit_record_from(
    writes: WriteMap,
    key: Seq<u8>,
    start_ts: TimeStamp,
    seek_ts: u64,
) -> CommitRecordView
    decreases seek_ts,
{
    let at = (key, TimeStamp(seek_ts));
    if writes.contains_key(at) {
        let write = writes[at];
        if write.start_ts == start_ts {
            CommitRecordView::SingleRecord { commit_ts: TimeStamp(seek_ts), write }
        } else if seek_ts == start_ts.0 {
            if write.has_overlapped_rollback {
                CommitRecordView::OverlappedRollback { commit_ts: TimeStamp(seek_ts) }
            } else {
                CommitRecordView::NoRecord { overlapped_write: Some(write) }
            }
        } else if seek_ts < start_ts.0 {
            CommitRecordView::NoRecord { overlapped_write: None }
        } else {
            commit_record_from(writes, key, start_ts, (seek_ts - 1) as u64)
        }
    } else if seek_ts == 0 {
        CommitRecordView::NoRecord { overlapped_write: None }
    } else {
        commit_record_from(writes, key, start_ts, (seek_ts - 1) as u64)
    }
}

/// The commit record of the transaction that started at `start_ts`, in the
/// whole history of `key`.
pub open spec fn txn_commit_record(
    writes: WriteMap,
    key: Seq<u8>,
    start_ts: TimeStamp,
) -> CommitRecordView {
    commit_record_from(writes, key, start_ts, u64::MAX)
}

/// `get_write`, stated over the newest version at or before the timestamp.
pub open spec fn get_write_after_seek(
    writes: WriteMap,
    key: Seq<u8>,
    found: Option<(TimeStamp, WriteView)>,
) -> Option<WriteView> {
    match found {
        None => None,
        Some((commit_ts, write)) => match write.write_type {
            WriteType::Put => Some(write),
            WriteType::Delete => None,
            _ => if commit_ts.0 == 0 {
                None
            } else {
                get_write(writes, key, (commit_ts.0 - 1) as u64)
            },
        },
    }
}

/// `commit_record_from`, stated over the newest version at or before the
/// timestamp.
pub open spec fn commit_record_after_seek(
    writes: WriteMap,
    key: Seq<u8>,
    start_ts: TimeStamp,
    found: Option<(TimeStamp, WriteView)>,
) -> CommitRecordView {
    match found {
        None => CommitRecordView::NoRecord { overlapped_write: None },
        Some((commit_ts, write)) => if write.start_ts == start_ts {
            CommitRecordView::SingleRecord { commit_ts, write }
        } else if commit_ts == start_ts {
            if write.has_overlapped_rollback {
                CommitRecordView::OverlappedRollback { commit_ts }
            } else {
                CommitRecordView::NoRecord { overlapped_write: Some(write) }
            }
        } else if commit_ts.0 < start_ts.0 {
            CommitRecordView::NoRecord { overlapped_write: None }
        } else {
            commit_record_from(writes, key, start_ts, (commit_ts.0 - 1) as u64)
        },
    }
}

/// What `seek_write` finds is a version of the key, at or before the
/// timestamp, with no other version of the key between the two.
pub proof fn lemma_seek_write(writes: WriteMap, key: Seq<u8>, ts: u64)
    ensures
        match seek_write(writes, key, ts) {
            Some((commit_ts, write)) => {
                &&& commit_ts.0 <= ts
                &&& writes.contains_key((key, commit_ts))
                &&& writes[(key, commit_ts)] == write
                &&& forall|t: u64|
                    commit_ts.0 < t <= ts ==> !#[trigger] writes.contains_key((key, TimeStamp(t)))
            },
            None => forall|t: u64| t <= ts ==> !#[trigger] writes.contains_key((key, TimeStamp(t))),
        },
    decreases ts,
{
    if !writes.contains_key((key, TimeStamp(ts))) && ts != 0 {
        lemma_seek_write(writes, key, (ts - 1) as u64);
    }
}

/// A version of the key at or before the timestamp, with no other version of
/// the key between the two, is what `seek_write` finds.
pub proof fn lemma_seek_write_is_latest(writes: WriteMap, key: Seq<u8>, ts: u64, commit_ts: u64)
    requires
        commit_ts <= ts,
        writes.contains_key((key, TimeStamp(commit_ts))),
        forall|t: u64| commit_ts < t <= ts ==> !#[trigger] writes.contains_key((key, TimeStamp(t))),
    ensures
        seek_write(writes, key, ts) == Some(
            (TimeStamp(commit_ts), writes[(key, TimeStamp(commit_ts))]),
        ),
{
    lemma_seek_write(writes, key, ts);
    if let Some((found_ts, _)) = seek_write(writes, key, ts) {
        assert(writes.contains_key((key, TimeStamp(found_ts.0))));
    }
}

/// How one more version changes what `seek_write` finds: the new version is
/// found where it is a version of the key at or before the timestamp and not
/// older than what was found before; elsewhere nothing changes.
pub proof fn lemma_seek_write_insert(
    writes: WriteMap,
    at: (Seq<u8>, TimeStamp),
    write: WriteView,
    key: Seq<u8>,
    ts: u64,
)
    ensures
        seek_write(writes.insert(at, write), key, ts) == if at.0 == key && at.1.0 <= ts && (
        match seek_write(writes, key, ts) {
            Some((commit_ts, _)) => commit_ts.0 <= at.1.0,
            None => true,
        }) {
            Some((at.1, write))
        } else {
            seek_write(writes, key, ts)
        },
    decreases ts,
{
    let here = (key, TimeStamp(ts));
    lemma_seek_write(writes, key, ts);
    if here == at {
    } else if writes.contains_key(here) {
    } else if ts == 0 {
    } else {
        lemma_seek_write_insert(writes, at, write, key, (ts - 1) as u64);
    }
}

/// `get_write` agrees with its statement over `seek_write`.
pub proof fn lemma_get_write_after_seek(writes: WriteMap, key: Seq<u8>, ts: u64)
    ensures
        get_write(writes, key, ts) == get_write_after_seek(
            writes,
            key,
            seek_write(writes, key, ts),
        ),
    decreases ts,
{
    if !writes.contains_key((key, TimeStamp(ts))) && ts != 0 {
        lemma_get_write_after_seek(writes, key, (ts - 1) as u64);
    }
}

/// `commit_record_from` agrees with its statement over `seek_write`.
pub proof fn lemma_commit_record_after_seek(
    writes: WriteMap,
    key: Seq<u8>,
    start_ts: TimeStamp,
    seek_ts: u64,
)
    ensures
        commit_record_from(writes, key, start_ts, seek_ts) == commit_record_after_seek(
            writes,
            key,
            start_ts,
            seek_write(writes, key, seek_ts),
        ),
    decreases seek_ts,
{
    if !writes.contains_key((key, TimeStamp(seek_ts))) && seek_ts != 0 {
        lemma_commit_record_after_seek(writes, key, start_ts, (seek_ts - 1) as u64);
    }
}

/// Carrying out one more modification after a sequence is carrying out the
/// longer sequence.
pub proof fn lemma_apply_all_push(snapshot: SnapshotView, ms: Seq<ModifyView>, m: ModifyView)
    ensures
        snapshot.apply_all(ms.push(m)) == snapshot.apply_all(ms).apply(m),
{
    assert(ms.push(m).drop_last() =~= ms);
}

/// Whether two histories hold the same versions of `key` after `ts`.
pub open spec fn same_versions_after(
    writes: WriteMap,
    other: WriteMap,
    key: Seq<u8>,
    ts: TimeStamp,
) -> bool {
    forall|t: u64|
        ts.0 < t ==> {
            &&& writes.contains_key((key, TimeStamp(t))) == #[trigger] other.contains_key(
                (key, TimeStamp(t)),
            )
            &&& writes.contains_key((key, TimeStamp(t))) ==> writes[(key, TimeStamp(t))]
                == other[(key, TimeStamp(t))]
        }
}

/// Where a history holds no trace of a transaction, the search for its commit
/// record passes all versions committed after its start timestamp. The same
/// search in a history with the same versions after that timestamp therefore
/// arrives at the start timestamp.
pub proof fn lemma_commit_record_passes_later_versions(
    writes: WriteMap,
    other: WriteMap,
    key: Seq<u8>,
    start_ts: TimeStamp,
    seek_ts: u64,
)
    requires
        start_ts.0 <= seek_ts,
        commit_record_from(writes, key, start_ts, seek_ts) is NoRecord,
        same_versions_after(writes, other, key, start_ts),
    ensures
        commit_record_from(other, key, start_ts, seek_ts) == commit_record_from(
            other,
            key,
            start_ts,
            start_ts.0,
        ),
    decreases seek_ts,
{
    if start_ts.0 < seek_ts {
        assert(writes.contains_key((key, TimeStamp(seek_ts))) == other.contains_key(
            (key, TimeStamp(seek_ts)),
        ));
        lemma_commit_record_passes_later_versions(
            writes,
            other,
            key,
            start_ts,
            (seek_ts - 1) as u64,
        );
    }
}

/// A search that starts before the start timestamp of the transaction finds
/// a record of the transaction or nothing.
pub proof fn lemma_commit_record_before_start(
    writes: WriteMap,
    key: Seq<u8>,
    start_ts: TimeStamp,
    seek_ts: u64,
)
    requires
        seek_ts < start_ts.0,
    ensures
        commit_record_from(writes, key, start_ts, seek_ts) is SingleRecord || commit_record_from(
            writes,
            key,
            start_ts,
            seek_ts,
        ) == (CommitRecordView::NoRecord { overlapped_write: None }),
    decreases seek_ts,
{
    if !writes.contains_key((key, TimeStamp(seek_ts))) && seek_ts != 0 {
        lemma_commit_record_before_start(writes, key, start_ts, (seek_ts - 1) as u64);
    }
}

/// The record of another transaction that a search reports is the version
/// committed at the start timestamp of the transaction searched for, and no
/// rollback has been folded into it.
pub proof fn lemma_commit_record_overlapped_write(
    writes: WriteMap,
    key: Seq<u8>,
    start_ts: TimeStamp,
)
    ensures
        commit_record_from(writes, key, start_ts, start_ts.0) matches CommitRecordView::NoRecord {
            overlapped_write: Some(write),
        } ==> {
            &&& writes.contains_key((key, start_ts))
            &&& writes[(key, start_ts)] == write
            &&& write.start_ts != start_ts
            &&& !write.has_overlapped_rollback
        },
{
    if !writes.contains_key((key, start_ts)) && start_ts.0 != 0 {
        lemma_commit_record_before_start(writes, key, start_ts, (start_ts.0 - 1) as u64);
    }
}

/// A history without any version of `key` holds no trace of any transaction
/// on that key, and gives the key no value.
pub proof fn lemma_no_versions(writes: WriteMap, key: Seq<u8>, start_ts: TimeStamp, ts: u64)
    requires
        forall|t: u64| !#[trigger] writes.contains_key((key, TimeStamp(t))),
    ensures
        seek_write(writes, key, ts) is None,
        !key_exists(writes, key, ts),
        commit_record_from(writes, key, start_ts, ts) == (CommitRecordView::NoRecord {
            overlapped_write: None,
        }),
    decreases ts,
{
    if ts != 0 {
        lemma_no_versions(writes, key, start_ts, (ts - 1) as u64);
    }
}

} // verus!
