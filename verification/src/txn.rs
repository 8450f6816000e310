//! The transaction context: one transaction's view of the store and the
//! modifications that it has enqueued so far.

use crate::key::Key;
use crate::lock::{Lock, LockView};
use crate::model::{
    key_exists, seek_write, txn_commit_record, CommitRecordView, ModifyView, SnapshotView,
};
use crate::reader::{write_option_view, MvccReader, TxnCommitRecord};
use crate::snapshot::{modifies_view, Modify, Snapshot};
use crate::timestamp::TimeStamp;
use crate::write::{Write, WriteType, WriteView};
use vstd::prelude::*;

verus! {

/// A lock that has been released, for whoever waits for it.
#[derive(Debug, PartialEq, Eq)]
pub struct ReleasedLock {
    /// The key whose lock was released.
    pub key: Key,
    /// Whether the lock belonged to a pessimistic transaction.
    pub pessimistic: bool,
}

/// The mathematical value of a released lock.
pub struct ReleasedLockView {
    pub key: Seq<u8>,
    pub pessimistic: bool,
}

impl View for ReleasedLock {
    type V = ReleasedLockView;

    open spec fn view(&self) -> ReleasedLockView {
        ReleasedLockView { key: self.key@, pessimistic: self.pessimistic }
    }
}

impl ReleasedLock {
    pub fn new(key: &Key, pessimistic: bool) -> (res: ReleasedLock)
        ensures
            res@ == (ReleasedLockView { key: key@, pessimistic }),
    {
        ReleasedLock { key: key.clone(), pessimistic }
    }
}

/// The mathematical value of an optional released lock.
pub open spec fn released_view(released: Option<ReleasedLock>) -> Option<ReleasedLockView> {
    match released {
        Some(r) => Some(r@),
        None => None,
    }
}

/// The record that rolls back the transaction started at `start_ts`. Where
/// another transaction committed a record at that very timestamp, the
/// rollback is folded into that record if it has to be protected, and is not
/// recorded at all if it has not.
pub open spec fn rollback_write(
    start_ts: TimeStamp,
    protected: bool,
    overlapped_write: Option<WriteView>,
) -> Option<WriteView> {
    match overlapped_write {
        Some(write) => if protected {
            Some(write.set_overlapped_rollback(true))
        } else {
            None
        },
        None => Some(WriteView::new_rollback(start_ts, protected)),
    }
}

/// The record that rolls back the transaction started at `start_ts`, if one
/// is to be written. `overlapped_write` is the record that another
/// transaction committed at `start_ts`; that transaction started earlier.
pub fn make_rollback(start_ts: TimeStamp, protected: bool, overlapped_write: Option<Write>) -> (res:
    Option<Write>)
    requires
        overlapped_write matches Some(write) ==> write.start_ts.0 < start_ts.0,
    ensures
        write_option_view(res) == rollback_write(
            start_ts,
            protected,
            write_option_view(overlapped_write),
        ),
{
    match overlapped_write {
        Some(write) => {
            if protected {
                Some(write.set_overlapped_rollback(true))
            } else {
                None
            }
        },
        None => Some(Write::new_rollback(start_ts, protected)),
    }
}

/// What to do when the lock of a transaction is not there.
#[derive(Clone, Copy, Debug, PartialEq, Eq, Structural)]
pub enum MissingLockAction {
    UnprotectedRollback,
    ProtectedRollback,
    ReturnError,
}

impl MissingLockAction {
    /// The rollback action, protected or not.
    pub fn rollback_protect(protect_rollback: bool) -> (res: MissingLockAction)
        ensures
            res == if protect_rollback {
                MissingLockAction::ProtectedRollback
            } else {
                MissingLockAction::UnprotectedRollback
            },
    {
        if protect_rollback {
            MissingLockAction::ProtectedRollback
        } else {
            MissingLockAction::UnprotectedRollback
        }
    }

    /// The action of a caller that either rolls back, protected, or wants an
    /// error.
    pub fn rollback(rollback_if_not_exist: bool) -> (res: MissingLockAction)
        ensures
            res == if rollback_if_not_exist {
                MissingLockAction::ProtectedRollback
            } else {
                MissingLockAction::ReturnError
            },
    {
        if rollback_if_not_exist {
            MissingLockAction::ProtectedRollback
        } else {
            MissingLockAction::ReturnError
        }
    }

    /// The rollback record that the action asks for.
    pub open spec fn spec_construct_write(
        self,
        ts: TimeStamp,
        overlapped_write: Option<WriteView>,
    ) -> Option<WriteView> {
        rollback_write(ts, self == MissingLockAction::ProtectedRollback, overlapped_write)
    }

    /// The rollback record that a rollback action asks for, if it asks for
    /// one. `overlapped_write` is the record that another transaction
    /// committed at `ts`; that transaction started earlier.
    pub fn construct_write(&self, ts: TimeStamp, overlapped_write: Option<Write>) -> (res: Option<
        Write,
    >)
        requires
            *self != MissingLockAction::ReturnError,
            overlapped_write matches Some(write) ==> write.start_ts.0 < ts.0,
        ensures
            write_option_view(res) == self.spec_construct_write(
                ts,
                write_option_view(overlapped_write),
            ),
    {
        match self {
            MissingLockAction::ProtectedRollback => make_rollback(ts, true, overlapped_write),
            _ => make_rollback(ts, false, overlapped_write),
        }
    }
}

/// The mathematical value of a transaction context.
pub struct MvccTxnView {
    /// The store as the transaction sees it.
    pub snapshot: SnapshotView,
    pub start_ts: TimeStamp,
    /// Whether an earlier unprotected rollback record is removed when a new
    /// one is written.
    pub collapse_rollback: bool,
    /// The modifications enqueued so far, oldest first.
    pub modifies: Seq<ModifyView>,
}

impl MvccTxnView {
    /// The context with one more modification enqueued.
    pub open spec fn enqueue(self, m: ModifyView) -> MvccTxnView {
        MvccTxnView { modifies: self.modifies.push(m), ..self }
    }

    /// Whether this context is `before` with more modifications enqueued:
    /// the snapshot is the same, and what was enqueued is still there, in
    /// its place.
    pub open spec fn extends(self, before: MvccTxnView) -> bool {
        &&& self.snapshot == before.snapshot
        &&& self.start_ts == before.start_ts
        &&& self.collapse_rollback == before.collapse_rollback
        &&& before.modifies.is_prefix_of(self.modifies)
    }

    /// What the history of `key` says of this transaction.
    pub open spec fn commit_record(self, key: Seq<u8>) -> CommitRecordView {
        txn_commit_record(self.snapshot.writes, key, self.start_ts)
    }

    /// Whether the history of `key` holds no trace of this transaction, and
    /// a record of another transaction that was committed at this
    /// transaction's start timestamp belongs to an older transaction.
    pub open spec fn can_roll_back(self, key: Seq<u8>) -> bool {
        &&& self.commit_record(key) is NoRecord
        &&& self.commit_record(key)->overlapped_write matches Some(write) ==> write.start_ts.0
            < self.start_ts.0
    }

    /// The record of another transaction committed at this transaction's
    /// start timestamp, where the history holds no trace of this transaction.
    pub open spec fn overlapped_write(self, key: Seq<u8>) -> Option<WriteView> {
        match self.commit_record(key) {
            CommitRecordView::NoRecord { overlapped_write } => overlapped_write,
            _ => None,
        }
    }

    /// The context after the newest version of `key` at or before the start
    /// timestamp has been removed, if it is an unprotected rollback record.
    pub open spec fn collapse_prev_rollback(self, key: Seq<u8>) -> MvccTxnView {
        match seek_write(self.snapshot.writes, key, self.start_ts.0) {
            Some((commit_ts, write)) => if write.write_type == WriteType::Rollback
                && !write.is_protected() {
                self.enqueue(ModifyView::DeleteWrite { key, commit_ts })
            } else {
                self
            },
            None => self,
        }
    }

    /// The context after the rollback of this transaction has been recorded
    /// in the lock that another transaction holds on `key`. That is done only
    /// for a protected rollback that the lock's commit could overwrite: the
    /// lock uses async commit and its commit timestamp may still become this
    /// transaction's start timestamp.
    pub open spec fn mark_rollback_on_mismatching_lock(
        self,
        key: Seq<u8>,
        lock: LockView,
        is_protected: bool,
    ) -> MvccTxnView {
        if is_protected && self.start_ts.0 >= lock.min_commit_ts.0 && lock.use_async_commit {
            self.enqueue(
                ModifyView::PutLock {
                    key,
                    lock: LockView { rollback_ts: lock.rollback_ts.push(self.start_ts), ..lock },
                },
            )
        } else {
            self
        }
    }

    /// The context after the lock of this transaction on `key` has been
    /// rolled back: the rollback record is written, an earlier unprotected
    /// rollback record is collapsed, and the lock is released. The rollback
    /// is protected for the primary key of a pessimistic transaction.
    pub open spec fn rollback_lock(
        self,
        key: Seq<u8>,
        lock: LockView,
        is_pessimistic_txn: bool,
        overlapped_write: Option<WriteView>,
    ) -> MvccTxnView {
        let protected = is_pessimistic_txn && key == lock.primary;
        let written = match rollback_write(self.start_ts, protected, overlapped_write) {
            Some(write) => self.enqueue(
                ModifyView::PutWrite { key, commit_ts: self.start_ts, write },
            ),
            None => self,
        };
        let collapsed = if self.collapse_rollback {
            written.collapse_prev_rollback(key)
        } else {
            written
        };
        collapsed.enqueue(ModifyView::DeleteLock { key })
    }

    /// The context after the lock of this transaction on `key` has been
    /// rolled back, the history of `key` taken into account.
    pub open spec fn check_write_and_rollback_lock(
        self,
        key: Seq<u8>,
        lock: LockView,
        is_pessimistic_txn: bool,
    ) -> MvccTxnView {
        self.rollback_lock(key, lock, is_pessimistic_txn, self.overlapped_write(key))
    }

    /// The store after the enqueued modifications have been carried out.
    pub open spec fn committed(self) -> SnapshotView {
        self.snapshot.apply_all(self.modifies)
    }
}

/// One transaction's view of the store, with the modifications that it has
/// enqueued. Nothing reaches the store before the modifications are taken out
/// and applied.
pub struct MvccTxn {
    pub reader: MvccReader,
    pub start_ts: TimeStamp,
    pub collapse_rollback: bool,
    pub modifies: Vec<Modify>,
}

impl View for MvccTxn {
    type V = MvccTxnView;

    open spec fn view(&self) -> MvccTxnView {
        MvccTxnView {
            snapshot: self.reader@,
            start_ts: self.start_ts,
            collapse_rollback: self.collapse_rollback,
            modifies: modifies_view(self.modifies@),
        }
    }
}

impl MvccTxn {
    /// A context over `snapshot` for the transaction started at `start_ts`,
    /// with nothing enqueued. Rollback records are collapsed.
    pub fn new(snapshot: Snapshot, start_ts: TimeStamp) -> (res: MvccTxn)
        ensures
            res@ == (MvccTxnView {
                snapshot: snapshot@,
                start_ts,
                collapse_rollback: true,
                modifies: Seq::empty(),
            }),
    {
        let txn = MvccTxn {
            reader: MvccReader::new(snapshot),
            start_ts,
            collapse_rollback: true,
            modifies: Vec::new(),
        };
        assert(modifies_view(txn.modifies@) =~= Seq::empty());
        txn
    }

    /// Sets whether rollback records are collapsed.
    pub fn set_collapse_rollback(&mut self, collapse: bool)
        ensures
            final(self)@ == (MvccTxnView { collapse_rollback: collapse, ..old(self)@ }),
    {
        self.collapse_rollback = collapse;
    }

    /// The enqueued modifications, oldest first.
    pub fn into_modifies(self) -> (res: Vec<Modify>)
        ensures
            modifies_view(res@) == self@.modifies,
    {
        self.modifies
    }

    /// Carries out the enqueued modifications on the snapshot, and gives
    /// back the store as it is then.
    pub fn commit(self) -> (res: Snapshot)
        ensures
            res@ == self@.committed(),
    {
        let MvccTxn { reader, modifies, .. } = self;
        let mut snapshot = reader.snapshot;
        snapshot.apply(modifies);
        snapshot
    }

    fn enqueue(&mut self, modify: Modify)
        ensures
            final(self)@ == old(self)@.enqueue(modify@),
    {
        assert(modifies_view(self.modifies@.push(modify)) =~= modifies_view(self.modifies@).push(
            modify@,
        ));
        self.modifies.push(modify);
    }

    /// Enqueues `lock` as the lock of `key`.
    pub fn put_lock(&mut self, key: Key, lock: &Lock)
        ensures
            final(self)@ == old(self)@.enqueue(ModifyView::PutLock { key: key@, lock: lock@ }),
    {
        self.enqueue(Modify::PutLock { key, lock: lock.clone() });
    }

    /// Enqueues the removal of the lock of `key`, and names the lock as
    /// released.
    pub fn unlock_key(&mut self, key: Key, pessimistic: bool) -> (res: Option<ReleasedLock>)
        ensures
            final(self)@ == old(self)@.enqueue(ModifyView::DeleteLock { key: key@ }),
            released_view(res) == Some(ReleasedLockView { key: key@, pessimistic }),
    {
        let released = ReleasedLock::new(&key, pessimistic);
        self.enqueue(Modify::DeleteLock { key });
        Some(released)
    }

    /// Enqueues `write` as the version of `key` committed at `ts`.
    pub fn put_write(&mut self, key: Key, ts: TimeStamp, write: Write)
        ensures
            final(self)@ == old(self)@.enqueue(
                ModifyView::PutWrite { key: key@, commit_ts: ts, write: write@ },
            ),
    {
        self.enqueue(Modify::PutWrite { key, commit_ts: ts, write });
    }

    /// Enqueues the removal of the version of `key` committed at `ts`.
    pub fn delete_write(&mut self, key: Key, ts: TimeStamp)
        ensures
            final(self)@ == old(self)@.enqueue(
                ModifyView::DeleteWrite { key: key@, commit_ts: ts },
            ),
    {
        self.enqueue(Modify::DeleteWrite { key, commit_ts: ts });
    }

    /// Whether the lock of this transaction on `key` can be rolled back: the
    /// history of `key` holds no trace of the transaction, and a record that
    /// another transaction committed at the start timestamp of this one
    /// belongs to an older transaction.
    pub fn can_roll_back(&self, key: &Key) -> (res: bool)
        ensures
            res == self@.can_roll_back(key@),
    {
        match self.reader.get_txn_commit_record(key, self.start_ts) {
            TxnCommitRecord::NoRecord { overlapped_write } => match overlapped_write {
                Some(write) => write.start_ts.0 < self.start_ts.0,
                None => true,
            },
            _ => false,
        }
    }

    /// Whether `key` holds a value at `ts` in the snapshot.
    pub fn key_exist(&self, key: &Key, ts: TimeStamp) -> (res: bool)
        ensures
            res == key_exists(self@.snapshot.writes, key@, ts.0),
    {
        self.reader.key_exist(key, ts)
    }

    /// Removes the newest version of `key` at or before the start timestamp,
    /// if it is an unprotected rollback record.
    pub fn collapse_prev_rollback(&mut self, key: Key)
        ensures
            final(self)@ == old(self)@.collapse_prev_rollback(key@),
    {
        match self.reader.seek_write(&key, self.start_ts) {
            Some((commit_ts, write)) => {
                if write.write_type == WriteType::Rollback && !write.is_protected() {
                    self.delete_write(key, commit_ts);
                }
            },
            None => {},
        }
    }

    /// Records the rollback of this transaction in `lock`, the lock that
    /// another transaction holds on `key`, where the rollback is protected
    /// and the commit of that lock could overwrite it.
    pub fn mark_rollback_on_mismatching_lock(&mut self, key: &Key, lock: Lock, is_protected: bool)
        requires
            lock.ts != old(self).start_ts,
        ensures
            final(self)@ == old(self)@.mark_rollback_on_mismatching_lock(
                key@,
                lock@,
                is_protected,
            ),
    {
        if !is_protected {
            return ;
        }
        if self.start_ts.0 < lock.min_commit_ts.0 {
            return ;
        }
        if !lock.use_async_commit {
            return ;
        }
        let mut lock = lock;
        lock.rollback_ts.push(self.start_ts);
        self.put_lock(key.clone(), &lock);
    }

    /// Rolls back the lock of this transaction on `key`. `overlapped_write`
    /// is the record that another transaction committed at the start
    /// timestamp of this one; that transaction started earlier.
    pub fn rollback_lock(
        &mut self,
        key: Key,
        lock: &Lock,
        is_pessimistic_txn: bool,
        overlapped_write: Option<Write>,
    ) -> (res: Option<ReleasedLock>)
        requires
            overlapped_write matches Some(write) ==> write.start_ts.0 < old(self).start_ts.0,
        ensures
            final(self)@ == old(self)@.rollback_lock(
                key@,
                lock@,
                is_pessimistic_txn,
                write_option_view(overlapped_write),
            ),
            released_view(res) == Some(
                ReleasedLockView { key: key@, pessimistic: is_pessimistic_txn },
            ),
    {
        let protected: bool = is_pessimistic_txn && key.is_encoded_from(lock.primary.as_slice());
        match make_rollback(self.start_ts, protected, overlapped_write) {
            Some(write) => {
                self.put_write(key.clone(), self.start_ts, write);
            },
            None => {},
        }
        if self.collapse_rollback {
            self.collapse_prev_rollback(key.clone());
        }
        self.unlock_key(key, is_pessimistic_txn)
    }

    /// Rolls back the lock of this transaction on `key`, after looking in the
    /// history of `key` for a record that the rollback must not destroy. The
    /// history holds no trace of this transaction: its lock is still there.
    pub fn check_write_and_rollback_lock(
        &mut self,
        key: Key,
        lock: &Lock,
        is_pessimistic_txn: bool,
    ) -> (res: Option<ReleasedLock>)
        requires
            old(self)@.can_roll_back(key@),
        ensures
            final(self)@ == old(self)@.check_write_and_rollback_lock(
                key@,
                lock@,
                is_pessimistic_txn,
            ),
            released_view(res) == Some(
                ReleasedLockView { key: key@, pessimistic: is_pessimistic_txn },
            ),
    {
        let overlapped_write: Option<Write> = match self.reader.get_txn_commit_record(
            &key,
            self.start_ts,
        ) {
            TxnCommitRecord::NoRecord { overlapped_write } => overlapped_write,
            _ => None,
        };
        self.rollback_lock(key, lock, is_pessimistic_txn, overlapped_write)
    }
}

} // verus!
