//! Resolving the status of a transaction from the lock on its primary key,
//! or from the absence of that lock.

use crate::error::{Error, ErrorInner, ErrorView, MvccResult};
use crate::key::Key;
use crate::lock::{Lock, LockType, LockView};
use crate::model::{
    lemma_apply_all_push, lemma_commit_record_overlapped_write,
    lemma_commit_record_passes_later_versions, lemma_seek_write, same_versions_after,
    CommitRecordView, ModifyView,
};
use crate::reader::TxnCommitRecord;
use crate::snapshot::lock_option_view;
use crate::status::{TxnStatus, TxnStatusView};
use crate::timestamp::TimeStamp;
use crate::txn::{
    released_view, rollback_write, MissingLockAction, MvccTxn, MvccTxnView, ReleasedLock,
    ReleasedLockView,
};
use crate::write::{WriteType, WriteView};
use vstd::prelude::*;

verus! {

/// Whether a status probe leaves the lock alone because the transaction uses
/// async commit and the caller did not ask to treat it as an ordinary one.
pub open spec fn is_deferred(lock: LockView, force_sync_commit: bool) -> bool {
    lock.use_async_commit && !force_sync_commit
}

/// Whether a status probe cleans the lock up: the lock is not left alone and
/// has outlived its time to live.
pub open spec fn is_cleaned_up(
    lock: LockView,
    current_ts: TimeStamp,
    force_sync_commit: bool,
) -> bool {
    !is_deferred(lock, force_sync_commit) && lock.is_expired(current_ts)
}

/// Whether cleaning the lock up only releases it: the caller resolves a
/// pessimistic lock and the lock is one.
pub open spec fn is_released_silently(lock: LockView, resolving_pessimistic_lock: bool) -> bool {
    resolving_pessimistic_lock && lock.lock_type == LockType::Pessimistic
}

/// Whether a status probe rolls the transaction back.
pub open spec fn is_rolled_back(
    lock: LockView,
    current_ts: TimeStamp,
    force_sync_commit: bool,
    resolving_pessimistic_lock: bool,
) -> bool {
    is_cleaned_up(lock, current_ts, force_sync_commit) && !is_released_silently(
        lock,
        resolving_pessimistic_lock,
    )
}

/// Whether a status probe forwards the lock's `min_commit_ts`: the lock
/// takes part in forwarding, and the caller reads at a real timestamp that
/// the floor does not exceed.
pub open spec fn is_forwarded(lock: LockView, caller_start_ts: TimeStamp) -> bool {
    lock.min_commit_ts.0 != 0 && !caller_start_ts.is_max() && caller_start_ts.0
        >= lock.min_commit_ts.0
}

/// The floor that forwarding gives a lock: just after the caller's timestamp,
/// and not before the current time.
pub open spec fn forwarded_min_commit_ts(
    caller_start_ts: TimeStamp,
    current_ts: TimeStamp,
) -> TimeStamp {
    if caller_start_ts.0 + 1 < current_ts.0 {
        current_ts
    } else {
        TimeStamp((caller_start_ts.0 + 1) as u64)
    }
}

/// The rollback record that is due when the expired lock of the transaction
/// on its primary key is rolled back. The rollback of a pessimistic
/// transaction is protected on the primary key that the lock names. Where
/// another transaction committed a record at the start timestamp, an
/// unprotected rollback is not recorded.
pub open spec fn expiry_rollback_write(
    txn: MvccTxnView,
    primary_key: Seq<u8>,
    lock: LockView,
) -> Option<WriteView> {
    rollback_write(
        txn.start_ts,
        lock.is_pessimistic_txn() && primary_key == lock.primary,
        txn.overlapped_write(primary_key),
    )
}

/// The status that a probe reports of a transaction whose lock on its primary
/// key is `lock`, and the lock that the probe releases.
pub open spec fn lock_exists_status(
    primary_key: Seq<u8>,
    lock: LockView,
    current_ts: TimeStamp,
    caller_start_ts: TimeStamp,
    force_sync_commit: bool,
    resolving_pessimistic_lock: bool,
) -> (TxnStatusView, Option<ReleasedLockView>) {
    if is_deferred(lock, force_sync_commit) {
        (TxnStatusView::Uncommitted { lock, min_commit_ts_pushed: false }, None)
    } else if lock.is_expired(current_ts) {
        (
            if is_released_silently(lock, resolving_pessimistic_lock) {
                TxnStatusView::PessimisticRollBack
            } else {
                TxnStatusView::TtlExpire
            },
            Some(ReleasedLockView { key: primary_key, pessimistic: lock.is_pessimistic_txn() }),
        )
    } else if is_forwarded(lock, caller_start_ts) {
        (
            TxnStatusView::Uncommitted {
                lock: LockView {
                    min_commit_ts: forwarded_min_commit_ts(caller_start_ts, current_ts),
                    ..lock
                },
                min_commit_ts_pushed: true,
            },
            None,
        )
    } else {
        (TxnStatusView::Uncommitted { lock, min_commit_ts_pushed: caller_start_ts.is_max() }, None)
    }
}

/// The transaction context after a probe of a transaction whose lock on its
/// primary key is `lock`.
pub open spec fn lock_exists_effect(
    txn: MvccTxnView,
    primary_key: Seq<u8>,
    lock: LockView,
    current_ts: TimeStamp,
    caller_start_ts: TimeStamp,
    force_sync_commit: bool,
    resolving_pessimistic_lock: bool,
) -> MvccTxnView {
    if is_deferred(lock, force_sync_commit) {
        txn
    } else if lock.is_expired(current_ts) {
        if is_released_silently(lock, resolving_pessimistic_lock) {
            txn.enqueue(ModifyView::DeleteLock { key: primary_key })
        } else {
            txn.check_write_and_rollback_lock(primary_key, lock, lock.is_pessimistic_txn())
        }
    } else if is_forwarded(lock, caller_start_ts) {
        txn.enqueue(
            ModifyView::PutLock {
                key: primary_key,
                lock: LockView {
                    min_commit_ts: forwarded_min_commit_ts(caller_start_ts, current_ts),
                    ..lock
                },
            },
        )
    } else {
        txn
    }
}

/// The mathematical value of what a probe with a lock returns.
pub open spec fn lock_exists_view(res: MvccResult<(TxnStatus, Option<ReleasedLock>)>) -> Result<
    (TxnStatusView, Option<ReleasedLockView>),
    ErrorView,
> {
    match res {
        Ok((status, released)) => Ok((status@, released_view(released))),
        Err(e) => Err(e@),
    }
}

/// The mathematical value of what a probe without a lock returns.
pub open spec fn status_result_view(res: MvccResult<TxnStatus>) -> Result<
    TxnStatusView,
    ErrorView,
> {
    match res {
        Ok(status) => Ok(status@),
        Err(e) => Err(e@),
    }
}

/// Whether the history of the primary key lets a probe with `lock` be made:
/// where the probe would roll the transaction back, the history holds no
/// trace of the transaction.
pub fn can_check_txn_status_lock_exists(
    txn: &MvccTxn,
    primary_key: &Key,
    lock: &Lock,
    current_ts: TimeStamp,
    force_sync_commit: bool,
    resolving_pessimistic_lock: bool,
) -> (res: bool)
    ensures
        res == (is_rolled_back(lock@, current_ts, force_sync_commit, resolving_pessimistic_lock)
            ==> txn@.can_roll_back(primary_key@)),
{
    if lock.use_async_commit && !force_sync_commit {
        return true;
    }
    if !lock.is_expired(current_ts) {
        return true;
    }
    if resolving_pessimistic_lock && lock.lock_type == LockType::Pessimistic {
        return true;
    }
    txn.can_roll_back(primary_key)
}

/// Resolves the status of the transaction that holds `lock` on its primary
/// key.
///
/// A lock of an async-commit transaction is left alone unless
/// `force_sync_commit` is set. An expired lock is cleaned up: it is released
/// without a trace if it is a pessimistic lock and the caller resolves
/// pessimistic locks, and is rolled back otherwise. A live lock has its
/// `min_commit_ts` forwarded past `caller_start_ts` where it takes part in
/// forwarding.
///
/// Where the transaction is rolled back, the history of the primary key must
/// hold no trace of it: a lock is there only as long as its transaction has
/// neither committed nor rolled back.
pub fn check_txn_status_lock_exists(
    txn: &mut MvccTxn,
    primary_key: Key,
    lock: Lock,
    current_ts: TimeStamp,
    caller_start_ts: TimeStamp,
    force_sync_commit: bool,
    resolving_pessimistic_lock: bool,
) -> (res: MvccResult<(TxnStatus, Option<ReleasedLock>)>)
    requires
        is_rolled_back(lock@, current_ts, force_sync_commit, resolving_pessimistic_lock) ==> old(
            txn,
        )@.can_roll_back(primary_key@),
    ensures
        lock_exists_view(res) == Ok::<(TxnStatusView, Option<ReleasedLockView>), ErrorView>(
            lock_exists_status(
                primary_key@,
                lock@,
                current_ts,
                caller_start_ts,
                force_sync_commit,
                resolving_pessimistic_lock,
            ),
        ),
        final(txn)@ == lock_exists_effect(
            old(txn)@,
            primary_key@,
            lock@,
            current_ts,
            caller_start_ts,
            force_sync_commit,
            resolving_pessimistic_lock,
        ),
        // The probe reads the snapshot and enqueues; it changes nothing else.
        final(txn)@.extends(old(txn)@),
        // An expired pessimistic lock, under the resolution of pessimistic
        // locks, is released and no rollback record is written; that the
        // lock uses async commit changes nothing once the caller has asked
        // to treat it as an ordinary one.
        is_cleaned_up(lock@, current_ts, force_sync_commit) && is_released_silently(
            lock@,
            resolving_pessimistic_lock,
        ) ==> {
            &&& res matches Ok((status, Some(_)))
            &&& status@ == TxnStatusView::PessimisticRollBack
            &&& final(txn)@.modifies == old(txn)@.modifies.push(
                ModifyView::DeleteLock { key: primary_key@ },
            )
        },
        // Any other expired lock is rolled back: the rollback record that is
        // due is written at the start timestamp, and the lock is released
        // last.
        is_rolled_back(lock@, current_ts, force_sync_commit, resolving_pessimistic_lock) ==> {
            &&& res matches Ok((status, Some(_)))
            &&& status@ == TxnStatusView::TtlExpire
            &&& final(txn)@.modifies.last() == (ModifyView::DeleteLock { key: primary_key@ })
            &&& expiry_rollback_write(old(txn)@, primary_key@, lock@) matches Some(write)
                ==> final(txn)@.modifies[old(txn)@.modifies.len() as int] == (
            ModifyView::PutWrite { key: primary_key@, commit_ts: old(txn).start_ts, write })
            &&& old(txn)@.overlapped_write(primary_key@) is None ==> expiry_rollback_write(
                old(txn)@,
                primary_key@,
                lock@,
            ) == Some(
                WriteView::new_rollback(
                    old(txn).start_ts,
                    lock@.is_pessimistic_txn() && primary_key@ == lock@.primary,
                ),
            )
        },
        // A live lock that takes no part in forwarding is never forwarded,
        // whatever the caller's timestamp is; only a caller that reads at
        // the sentinel is told otherwise.
        !lock@.is_expired(current_ts) && lock.min_commit_ts.0 == 0 ==> {
            &&& final(txn)@ == old(txn)@
            &&& res matches Ok((status, None))
            &&& status@ == (TxnStatusView::Uncommitted {
                lock: lock@,
                min_commit_ts_pushed: !is_deferred(lock@, force_sync_commit)
                    && caller_start_ts.is_max(),
            })
        },
        // A caller that reads at the sentinel is told that a live lock was
        // pushed, though the lock stays as it is.
        !is_deferred(lock@, force_sync_commit) && !lock@.is_expired(current_ts)
            && caller_start_ts.is_max() ==> {
            &&& final(txn)@ == old(txn)@
            &&& res matches Ok((status, None))
            &&& status@ == (TxnStatusView::Uncommitted { lock: lock@, min_commit_ts_pushed: true })
        },
{
    // A probe never rolls back an async-commit transaction nor forwards its
    // floor: that is left to the resolution of its locks.
    if lock.use_async_commit && !force_sync_commit {
        return Ok((TxnStatus::uncommitted(lock, false), None));
    }
    let is_pessimistic_txn: bool = lock.is_pessimistic_txn();
    if lock.is_expired(current_ts) {
        return if resolving_pessimistic_lock && lock.lock_type == LockType::Pessimistic {
            let released = txn.unlock_key(primary_key, is_pessimistic_txn);
            Ok((TxnStatus::PessimisticRollBack, released))
        } else {
            let released = txn.check_write_and_rollback_lock(
                primary_key,
                &lock,
                is_pessimistic_txn,
            );
            Ok((TxnStatus::TtlExpire, released))
        };
    }
    // A caller that reads at the sentinel is told that the floor was pushed,
    // though nothing moves.
    let mut min_commit_ts_pushed: bool = caller_start_ts.is_max();
    let mut lock = lock;
    if !lock.min_commit_ts.is_zero() && !caller_start_ts.is_max() && caller_start_ts.0
        >= lock.min_commit_ts.0 {
        lock.min_commit_ts = caller_start_ts.next();
        if lock.min_commit_ts.0 < current_ts.0 {
            lock.min_commit_ts = current_ts;
        }
        txn.put_lock(primary_key, &lock);
        min_commit_ts_pushed = true;
    }
    Ok((TxnStatus::uncommitted(lock, min_commit_ts_pushed), None))
}

/// The status that a probe reports of a transaction that holds no lock on
/// its primary key.
pub open spec fn missing_lock_status(
    txn: MvccTxnView,
    primary_key: Seq<u8>,
    action: MissingLockAction,
    resolving_pessimistic_lock: bool,
) -> Result<TxnStatusView, ErrorView> {
    match txn.commit_record(primary_key) {
        CommitRecordView::SingleRecord { commit_ts, write } => Ok(
            if write.write_type == WriteType::Rollback {
                TxnStatusView::RolledBack
            } else {
                TxnStatusView::Committed { commit_ts }
            },
        ),
        CommitRecordView::OverlappedRollback { .. } => Ok(TxnStatusView::RolledBack),
        CommitRecordView::NoRecord { .. } => if action == MissingLockAction::ReturnError {
            Err(ErrorView::TxnNotFound { start_ts: txn.start_ts, key: primary_key })
        } else if resolving_pessimistic_lock {
            Ok(TxnStatusView::LockNotExistDoNothing)
        } else {
            Ok(TxnStatusView::LockNotExist)
        },
    }
}

/// Whether a probe without a lock rolls the transaction back: the history
/// holds no trace of the transaction, and the caller asks for a rollback and
/// does not resolve a pessimistic lock.
pub open spec fn missing_lock_rolls_back(
    txn: MvccTxnView,
    primary_key: Seq<u8>,
    action: MissingLockAction,
    resolving_pessimistic_lock: bool,
) -> bool {
    &&& txn.commit_record(primary_key) is NoRecord
    &&& action != MissingLockAction::ReturnError
    &&& !resolving_pessimistic_lock
}

/// The transaction context after a probe of a transaction that holds no lock
/// on its primary key. Where the probe rolls the transaction back, it
/// collapses an earlier rollback record, records the rollback in the lock of
/// another transaction where the commit of that lock could overwrite it, and
/// writes the rollback record.
pub open spec fn missing_lock_effect(
    txn: MvccTxnView,
    primary_key: Seq<u8>,
    mismatch_lock: Option<LockView>,
    action: MissingLockAction,
    resolving_pessimistic_lock: bool,
) -> MvccTxnView {
    if missing_lock_rolls_back(txn, primary_key, action, resolving_pessimistic_lock) {
        let overlapped_write = txn.overlapped_write(primary_key);
        let collapsed = if txn.collapse_rollback {
            txn.collapse_prev_rollback(primary_key)
        } else {
            txn
        };
        let marked = match (mismatch_lock, overlapped_write) {
            (Some(lock), None) => collapsed.mark_rollback_on_mismatching_lock(
                primary_key,
                lock,
                action == MissingLockAction::ProtectedRollback,
            ),
            _ => collapsed,
        };
        match action.spec_construct_write(txn.start_ts, overlapped_write) {
            Some(write) => marked.enqueue(
                ModifyView::PutWrite { key: primary_key, commit_ts: txn.start_ts, write },
            ),
            None => marked,
        }
    } else {
        txn
    }
}

/// Whether a probe without a lock can be made: `mismatch_lock` belongs to
/// another transaction, and where the probe would roll the transaction back,
/// a record committed at its start timestamp belongs to an older transaction.
pub fn can_check_txn_status_missing_lock(
    txn: &MvccTxn,
    primary_key: &Key,
    mismatch_lock: &Option<Lock>,
    action: MissingLockAction,
    resolving_pessimistic_lock: bool,
) -> (res: bool)
    ensures
        res == {
            &&& mismatch_lock matches Some(lock) ==> lock.ts != txn.start_ts
            &&& missing_lock_rolls_back(txn@, primary_key@, action, resolving_pessimistic_lock)
                ==> txn@.can_roll_back(primary_key@)
        },
{
    let mismatching: bool = match mismatch_lock {
        Some(lock) => lock.ts != txn.start_ts,
        None => true,
    };
    if !mismatching {
        return false;
    }
    if action == MissingLockAction::ReturnError || resolving_pessimistic_lock {
        return true;
    }
    match txn.reader.get_txn_commit_record(primary_key, txn.start_ts) {
        TxnCommitRecord::NoRecord { overlapped_write } => match overlapped_write {
            Some(write) => write.start_ts.0 < txn.start_ts.0,
            None => true,
        },
        _ => true,
    }
}

/// Resolves the status of a transaction that holds no lock on its primary
/// key. `mismatch_lock` is the lock that another transaction holds on the
/// key, if there is one.
///
/// A record of the transaction in the history of the key settles its status.
/// Where there is none, `action` says whether that is an error or the
/// transaction is rolled back now, so that a prewrite that arrives late
/// cannot succeed.
pub fn check_txn_status_missing_lock(
    txn: &mut MvccTxn,
    primary_key: Key,
    mismatch_lock: Option<Lock>,
    action: MissingLockAction,
    resolving_pessimistic_lock: bool,
) -> (res: MvccResult<TxnStatus>)
    requires
        mismatch_lock matches Some(lock) ==> lock.ts != old(txn).start_ts,
        missing_lock_rolls_back(old(txn)@, primary_key@, action, resolving_pessimistic_lock)
            ==> old(txn)@.can_roll_back(primary_key@),
    ensures
        status_result_view(res) == missing_lock_status(
            old(txn)@,
            primary_key@,
            action,
            resolving_pessimistic_lock,
        ),
        final(txn)@ == missing_lock_effect(
            old(txn)@,
            primary_key@,
            lock_option_view(mismatch_lock),
            action,
            resolving_pessimistic_lock,
        ),
        // The probe reads the snapshot and enqueues; it changes nothing else.
        final(txn)@.extends(old(txn)@),
        // A record of the transaction settles its status: a rollback record
        // means rolled back, any other record means committed when the
        // record was. Nothing is enqueued then.
        old(txn)@.commit_record(primary_key@) matches CommitRecordView::SingleRecord {
            commit_ts,
            write,
        } ==> {
            &&& final(txn)@ == old(txn)@
            &&& write.write_type == WriteType::Rollback ==> status_result_view(res) == Ok::<
                TxnStatusView,
                ErrorView,
            >(TxnStatusView::RolledBack)
            &&& write.write_type != WriteType::Rollback ==> status_result_view(res) == Ok::<
                TxnStatusView,
                ErrorView,
            >(TxnStatusView::Committed { commit_ts })
        },
        // Without a trace of the transaction, a caller that asks for an error
        // gets it, and nothing is enqueued.
        old(txn)@.commit_record(primary_key@) is NoRecord && action
            == MissingLockAction::ReturnError ==> {
            &&& final(txn)@ == old(txn)@
            &&& status_result_view(res) == Err::<TxnStatusView, ErrorView>(
                ErrorView::TxnNotFound { start_ts: old(txn).start_ts, key: primary_key@ },
            )
        },
{
    match txn.reader.get_txn_commit_record(&primary_key, txn.start_ts) {
        TxnCommitRecord::SingleRecord { commit_ts, write } => {
            if write.write_type == WriteType::Rollback {
                Ok(TxnStatus::RolledBack)
            } else {
                Ok(TxnStatus::committed(commit_ts))
            }
        },
        TxnCommitRecord::OverlappedRollback { .. } => Ok(TxnStatus::RolledBack),
        TxnCommitRecord::NoRecord { overlapped_write } => {
            if action == MissingLockAction::ReturnError {
                return Err(
                    Error::from(
                        ErrorInner::TxnNotFound {
                            start_ts: txn.start_ts,
                            key: primary_key.into_raw(),
                        },
                    ),
                );
            }
            if resolving_pessimistic_lock {
                return Ok(TxnStatus::LockNotExistDoNothing);
            }
            let ts: TimeStamp = txn.start_ts;

            // Collapse the previous rollback record, if there is one.
            if txn.collapse_rollback {
                txn.collapse_prev_rollback(primary_key.clone());
            }
            match mismatch_lock {
                Some(lock) => {
                    if overlapped_write.is_none() {
                        txn.mark_rollback_on_mismatching_lock(
                            &primary_key,
                            lock,
                            action == MissingLockAction::ProtectedRollback,
                        );
                    }
                },
                None => {},
            }
            // Write the rollback record, so that a prewrite of this
            // transaction that arrives after the cleanup finds it.
            match action.construct_write(ts, overlapped_write) {
                Some(write) => {
                    txn.put_write(primary_key, ts, write);
                },
                None => {},
            }
            Ok(TxnStatus::LockNotExist)
        },
    }
}

/// A rollback by a probe without a lock is not repeated. Take a context with
/// nothing enqueued, in which the probe rolls the transaction back and has a
/// rollback record to write. Once the modifications of that probe have been
/// carried out, the same probe finds the transaction rolled back and
/// enqueues nothing.
pub proof fn lemma_missing_lock_rollback_is_not_repeated(
    txn: MvccTxnView,
    primary_key: Seq<u8>,
    mismatch_lock: Option<LockView>,
    action: MissingLockAction,
    resolving_pessimistic_lock: bool,
)
    requires
        txn.modifies.len() == 0,
        missing_lock_rolls_back(txn, primary_key, action, resolving_pessimistic_lock),
        action.spec_construct_write(txn.start_ts, txn.overlapped_write(primary_key)) is Some,
    ensures
        ({
            let done = missing_lock_effect(
                txn,
                primary_key,
                mismatch_lock,
                action,
                resolving_pessimistic_lock,
            );
            let again = MvccTxnView { snapshot: done.committed(), ..txn };
            &&& missing_lock_status(again, primary_key, action, resolving_pessimistic_lock) == Ok::<
                TxnStatusView,
                ErrorView,
            >(TxnStatusView::RolledBack)
            &&& missing_lock_effect(
                again,
                primary_key,
                mismatch_lock,
                action,
                resolving_pessimistic_lock,
            ) == again
        }),
{
    let writes = txn.snapshot.writes;
    let start_ts = txn.start_ts;
    let overlapped_write = txn.overlapped_write(primary_key);
    let collapsed = if txn.collapse_rollback {
        txn.collapse_prev_rollback(primary_key)
    } else {
        txn
    };
    let marked = match (mismatch_lock, overlapped_write) {
        (Some(lock), None) => collapsed.mark_rollback_on_mismatching_lock(
            primary_key,
            lock,
            action == MissingLockAction::ProtectedRollback,
        ),
        _ => collapsed,
    };
    let write = action.spec_construct_write(start_ts, overlapped_write)->0;
    let put = ModifyView::PutWrite { key: primary_key, commit_ts: start_ts, write };
    let done = marked.enqueue(put);
    assert(done == missing_lock_effect(
        txn,
        primary_key,
        mismatch_lock,
        action,
        resolving_pessimistic_lock,
    ));

    // What the history says at the start timestamp itself.
    lemma_commit_record_passes_later_versions(writes, writes, primary_key, start_ts, u64::MAX);

    // The versions after the modifications: at most one version at or before
    // the start timestamp is removed, and the rollback is stored at the start
    // timestamp.
    lemma_seek_write(writes, primary_key, start_ts.0);
    assert(txn.modifies =~= Seq::empty());
    if collapsed != txn {
        lemma_apply_all_push(txn.snapshot, txn.modifies, collapsed.modifies.last());
    }
    if marked != collapsed {
        lemma_apply_all_push(txn.snapshot, collapsed.modifies, marked.modifies.last());
    }
    lemma_apply_all_push(txn.snapshot, marked.modifies, put);
    let after = done.committed().writes;
    assert(after.contains_key((primary_key, start_ts)) && after[(primary_key, start_ts)] == write);
    assert(same_versions_after(writes, after, primary_key, start_ts));
    lemma_commit_record_passes_later_versions(writes, after, primary_key, start_ts, u64::MAX);
    lemma_commit_record_overlapped_write(writes, primary_key, start_ts);
}

/// A rollback by a probe with a lock is seen by every later probe. Take a
/// context with nothing enqueued, in which the probe rolls the transaction
/// back and has a rollback record to write, and a history in which no
/// rollback record stands at the start timestamp on behalf of another
/// transaction. Once the modifications of that probe have been carried out,
/// the key holds no lock, and a probe without a lock finds the transaction
/// rolled back and enqueues nothing.
pub proof fn lemma_expired_lock_rollback_is_seen(
    txn: MvccTxnView,
    primary_key: Seq<u8>,
    lock: LockView,
    current_ts: TimeStamp,
    caller_start_ts: TimeStamp,
    force_sync_commit: bool,
    resolving_pessimistic_lock: bool,
    later_mismatch_lock: Option<LockView>,
    later_action: MissingLockAction,
    later_resolving_pessimistic_lock: bool,
)
    requires
        txn.modifies.len() == 0,
        is_rolled_back(lock, current_ts, force_sync_commit, resolving_pessimistic_lock),
        txn.can_roll_back(primary_key),
        expiry_rollback_write(txn, primary_key, lock) is Some,
        txn.overlapped_write(primary_key) matches Some(write) ==> write.write_type
            != WriteType::Rollback,
    ensures
        ({
            let done = lock_exists_effect(
                txn,
                primary_key,
                lock,
                current_ts,
                caller_start_ts,
                force_sync_commit,
                resolving_pessimistic_lock,
            );
            let later = MvccTxnView { snapshot: done.committed(), ..txn };
            &&& later.snapshot.lock_of(primary_key) is None
            &&& missing_lock_status(
                later,
                primary_key,
                later_action,
                later_resolving_pessimistic_lock,
            ) == Ok::<TxnStatusView, ErrorView>(TxnStatusView::RolledBack)
            &&& missing_lock_effect(
                later,
                primary_key,
                later_mismatch_lock,
                later_action,
                later_resolving_pessimistic_lock,
            ) == later
        }),
{
    let writes = txn.snapshot.writes;
    let start_ts = txn.start_ts;
    let write = expiry_rollback_write(txn, primary_key, lock)->0;
    let put = ModifyView::PutWrite { key: primary_key, commit_ts: start_ts, write };
    let written = txn.enqueue(put);
    let collapsed = if txn.collapse_rollback {
        written.collapse_prev_rollback(primary_key)
    } else {
        written
    };
    let unlock = ModifyView::DeleteLock { key: primary_key };
    let done = collapsed.enqueue(unlock);
    assert(done == lock_exists_effect(
        txn,
        primary_key,
        lock,
        current_ts,
        caller_start_ts,
        force_sync_commit,
        resolving_pessimistic_lock,
    ));

    // What the history says at the start timestamp itself.
    lemma_commit_record_passes_later_versions(writes, writes, primary_key, start_ts, u64::MAX);
    lemma_commit_record_overlapped_write(writes, primary_key, start_ts);

    // The versions after the modifications: the rollback is stored at the
    // start timestamp, and at most one version before it is removed.
    lemma_seek_write(writes, primary_key, start_ts.0);
    assert(txn.modifies =~= Seq::empty());
    lemma_apply_all_push(txn.snapshot, txn.modifies, put);
    if collapsed != written {
        lemma_apply_all_push(txn.snapshot, written.modifies, collapsed.modifies.last());
    }
    lemma_apply_all_push(txn.snapshot, collapsed.modifies, unlock);
    let after = done.committed().writes;
    assert(after.contains_key((primary_key, start_ts)) && after[(primary_key, start_ts)] == write);
    assert(same_versions_after(writes, after, primary_key, start_ts));
    lemma_commit_record_passes_later_versions(writes, after, primary_key, start_ts, u64::MAX);
}

} // verus!
