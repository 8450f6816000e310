//! Reading a key's version history.

use crate::key::Key;
use crate::model::{
    commit_record_from, get_write, key_exists, lemma_commit_record_after_seek,
    lemma_get_write_after_seek, lemma_seek_write, seek_write, txn_commit_record, CommitRecordView,
    SnapshotView,
};
use crate::snapshot::{found_view, lock_option_view, Snapshot};
use crate::lock::Lock;
use crate::timestamp::TimeStamp;
use crate::write::{Write, WriteType, WriteView};
use vstd::prelude::*;

verus! {

/// What a key's history says of one transaction.
#[derive(Debug, PartialEq, Eq)]
pub enum TxnCommitRecord {
    /// A record written by the transaction itself: its commit or its
    /// rollback.
    SingleRecord { commit_ts: TimeStamp, write: Write },
    /// The rollback of the transaction, folded into the record that another
    /// transaction committed at the transaction's start timestamp.
    OverlappedRollback { commit_ts: TimeStamp },
    /// No trace of the transaction. `overlapped_write` is the record of
    /// another transaction committed at the transaction's start timestamp,
    /// where there is one.
    NoRecord { overlapped_write: Option<Write> },
}

/// The mathematical value of an optional write record.
pub open spec fn write_option_view(write: Option<Write>) -> Option<WriteView> {
    match write {
        Some(w) => Some(w@),
        None => None,
    }
}

impl View for TxnCommitRecord {
    type V = CommitRecordView;

    open spec fn view(&self) -> CommitRecordView {
        match *self {
            TxnCommitRecord::SingleRecord { commit_ts, write } => CommitRecordView::SingleRecord {
                commit_ts,
                write: write@,
            },
            TxnCommitRecord::OverlappedRollback { commit_ts } => {
                CommitRecordView::OverlappedRollback { commit_ts }
            },
            TxnCommitRecord::NoRecord { overlapped_write } => CommitRecordView::NoRecord {
                overlapped_write: write_option_view(overlapped_write),
            },
        }
    }
}

/// A reader of one snapshot of the store.
pub struct MvccReader {
    pub snapshot: Snapshot,
}

impl View for MvccReader {
    type V = SnapshotView;

    open spec fn view(&self) -> SnapshotView {
        self.snapshot@
    }
}

impl MvccReader {
    pub fn new(snapshot: Snapshot) -> (res: MvccReader)
        ensures
            res@ == snapshot@,
    {
        MvccReader { snapshot }
    }

    /// The lock of `key`, if it has one.
    pub fn load_lock(&self, key: &Key) -> (res: Option<Lock>)
        ensures
            lock_option_view(res) == self@.lock_of(key@),
    {
        self.snapshot.load_lock(key)
    }

    /// The newest version of `key` that was committed at or before `ts`.
    pub fn seek_write(&self, key: &Key, ts: TimeStamp) -> (res: Option<(TimeStamp, Write)>)
        ensures
            found_view(res) == seek_write(self@.writes, key@, ts.0),
    {
        self.snapshot.seek_write(key, ts)
    }

    /// The record that gives `key` its value at `ts`, if it has a value
    /// then.
    pub fn get_write(&self, key: &Key, ts: TimeStamp) -> (res: Option<Write>)
        ensures
            write_option_view(res) == get_write(self@.writes, key@, ts.0),
    {
        let mut seek_ts: TimeStamp = ts;
        loop
            invariant
                get_write(self@.writes, key@, seek_ts.0) == get_write(self@.writes, key@, ts.0),
            decreases seek_ts.0,
        {
            proof {
                lemma_seek_write(self@.writes, key@, seek_ts.0);
                lemma_get_write_after_seek(self@.writes, key@, seek_ts.0);
            }
            match self.seek_write(key, seek_ts) {
                None => {
                    return None;
                },
                Some((commit_ts, write)) => {
                    match write.write_type {
                        WriteType::Put => {
                            return Some(write);
                        },
                        WriteType::Delete => {
                            return None;
                        },
                        WriteType::Lock | WriteType::Rollback => {
                            if commit_ts.is_zero() {
                                return None;
                            }
                            seek_ts = commit_ts.prev();
                        },
                    }
                },
            }
        }
    }

    /// Whether `key` holds a value at `ts`.
    pub fn key_exist(&self, key: &Key, ts: TimeStamp) -> (res: bool)
        ensures
            res == key_exists(self@.writes, key@, ts.0),
    {
        self.get_write(key, ts).is_some()
    }

    /// The commit record of the transaction that started at `start_ts`, in
    /// the history of `key`.
    pub fn get_txn_commit_record(&self, key: &Key, start_ts: TimeStamp) -> (res: TxnCommitRecord)
        ensures
            res@ == txn_commit_record(self@.writes, key@, start_ts),
    {
        let mut seek_ts: TimeStamp = TimeStamp::max();
        loop
            invariant
                commit_record_from(self@.writes, key@, start_ts, seek_ts.0) == txn_commit_record(
                    self@.writes,
                    key@,
                    start_ts,
                ),
            decreases seek_ts.0,
        {
            proof {
                lemma_seek_write(self@.writes, key@, seek_ts.0);
                lemma_commit_record_after_seek(self@.writes, key@, start_ts, seek_ts.0);
            }
            match self.seek_write(key, seek_ts) {
                None => {
                    return TxnCommitRecord::NoRecord { overlapped_write: None };
                },
                Some((commit_ts, write)) => {
                    if write.start_ts == start_ts {
                        return TxnCommitRecord::SingleRecord { commit_ts, write };
                    }
                    if commit_ts == start_ts {
                        if write.has_overlapped_rollback {
                            return TxnCommitRecord::OverlappedRollback { commit_ts };
                        }
                        return TxnCommitRecord::NoRecord { overlapped_write: Some(write) };
                    }
                    if commit_ts.0 < start_ts.0 {
                        return TxnCommitRecord::NoRecord { overlapped_write: None };
                    }
                    seek_ts = commit_ts.prev();
                },
            }
        }
    }
}

} // verus!
