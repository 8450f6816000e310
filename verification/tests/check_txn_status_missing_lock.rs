use txn_actions::{
    can_check_txn_status_missing_lock, check_txn_status_missing_lock, ErrorInner, Key, Lock,
    LockType, MissingLockAction, Modify, MvccTxn, Snapshot, TimeStamp, TxnStatus, Write,
    WriteType,
};

const PRIMARY: &[u8] = b"primary";

fn start_ts() -> TimeStamp {
    TimeStamp::new(100)
}

/// The lock of another transaction on the primary key.
fn other_lock(min_commit_ts: u64, use_async_commit: bool) -> Lock {
    let lock = Lock::new(
        LockType::Put,
        b"other".to_vec(),
        TimeStamp::new(70),
        10,
        None,
        TimeStamp::zero(),
        TimeStamp::new(min_commit_ts),
    );
    if use_async_commit {
        lock.use_async_commit()
    } else {
        lock
    }
}

fn store_with(versions: Vec<(u64, Write)>) -> Snapshot {
    let mut snapshot = Snapshot::new();
    for (commit_ts, write) in versions {
        snapshot.put_write(Key::from_raw(PRIMARY), TimeStamp::new(commit_ts), write);
    }
    snapshot
}

#[test]
fn commit_record_means_committed() {
    for write_type in [WriteType::Put, WriteType::Delete, WriteType::Lock] {
        let versions = vec![
            (90, Write::new(WriteType::Put, TimeStamp::new(80), None)),
            (120, Write::new(write_type, start_ts(), None)),
            (130, Write::new(WriteType::Put, TimeStamp::new(125), None)),
        ];
        for action in [
            MissingLockAction::ReturnError,
            MissingLockAction::ProtectedRollback,
            MissingLockAction::UnprotectedRollback,
        ] {
            for resolving_pessimistic_lock in [false, true] {
                let mut txn = MvccTxn::new(store_with(versions.clone()), start_ts());
                let status = check_txn_status_missing_lock(
                    &mut txn,
                    Key::from_raw(PRIMARY),
                    Some(other_lock(0, true)),
                    action,
                    resolving_pessimistic_lock,
                );
                assert_eq!(status, Ok(TxnStatus::Committed { commit_ts: TimeStamp::new(120) }));
                assert_eq!(status, Ok(TxnStatus::committed(TimeStamp::new(120))));
                assert!(txn.modifies.is_empty());
            }
        }
    }
}

#[test]
fn rollback_record_means_rolled_back() {
    for protected in [false, true] {
        let snapshot = store_with(vec![
            (100, Write::new_rollback(start_ts(), protected)),
            (130, Write::new(WriteType::Put, TimeStamp::new(125), None)),
        ]);
        let mut txn = MvccTxn::new(snapshot, start_ts());
        let status = check_txn_status_missing_lock(
            &mut txn,
            Key::from_raw(PRIMARY),
            None,
            MissingLockAction::ReturnError,
            false,
        );
        assert_eq!(status, Ok(TxnStatus::RolledBack));
        assert!(txn.modifies.is_empty());
    }
}

#[test]
fn overlapped_rollback_means_rolled_back() {
    let folded = Write::new(WriteType::Put, TimeStamp::new(95), None).set_overlapped_rollback(true);
    let mut txn = MvccTxn::new(store_with(vec![(100, folded)]), start_ts());
    let status = check_txn_status_missing_lock(
        &mut txn,
        Key::from_raw(PRIMARY),
        None,
        MissingLockAction::ReturnError,
        false,
    );
    assert_eq!(status, Ok(TxnStatus::RolledBack));
    assert!(txn.modifies.is_empty());
}

#[test]
fn unknown_transaction_is_an_error_on_demand() {
    for resolving_pessimistic_lock in [false, true] {
        let snapshot = store_with(vec![
            (90, Write::new(WriteType::Put, TimeStamp::new(80), None)),
            (130, Write::new(WriteType::Put, TimeStamp::new(125), None)),
        ]);
        let mut txn = MvccTxn::new(snapshot, start_ts());
        let status = check_txn_status_missing_lock(
            &mut txn,
            Key::from_raw(PRIMARY),
            None,
            MissingLockAction::ReturnError,
            resolving_pessimistic_lock,
        );
        assert_eq!(
            status,
            Err(ErrorInner::TxnNotFound { start_ts: start_ts(), key: PRIMARY.to_vec() }.into())
        );
        assert!(txn.modifies.is_empty());
    }
}

#[test]
fn pessimistic_resolution_writes_nothing() {
    for action in [MissingLockAction::ProtectedRollback, MissingLockAction::UnprotectedRollback] {
        let mut txn = MvccTxn::new(Snapshot::new(), start_ts());
        let status = check_txn_status_missing_lock(
            &mut txn,
            Key::from_raw(PRIMARY),
            Some(other_lock(0, true)),
            action,
            true,
        );
        assert_eq!(status, Ok(TxnStatus::LockNotExistDoNothing));
        assert!(txn.modifies.is_empty());
    }
}

#[test]
fn unknown_transaction_is_rolled_back() {
    for (action, protected) in [
        (MissingLockAction::ProtectedRollback, true),
        (MissingLockAction::UnprotectedRollback, false),
    ] {
        let mut txn = MvccTxn::new(Snapshot::new(), start_ts());
        let status =
            check_txn_status_missing_lock(&mut txn, Key::from_raw(PRIMARY), None, action, false);
        assert_eq!(status, Ok(TxnStatus::LockNotExist));
        assert_eq!(
            txn.into_modifies(),
            vec![Modify::PutWrite {
                key: Key::from_raw(PRIMARY),
                commit_ts: start_ts(),
                write: Write::new_rollback(start_ts(), protected),
            }]
        );
    }
}

#[test]
fn protected_rollback_record_carries_the_mark() {
    let write = Write::new_rollback(start_ts(), true);
    assert_eq!(write.write_type, WriteType::Rollback);
    assert_eq!(write.start_ts, start_ts());
    assert_eq!(write.short_value, Some(b"p".to_vec()));
    assert!(!write.has_overlapped_rollback);
    assert!(write.is_protected());
    assert!(!Write::new_rollback(start_ts(), false).is_protected());
    assert_eq!(Write::new_rollback(start_ts(), false).short_value, None);
    // Only a rollback record can be protected.
    assert!(!Write::new(WriteType::Put, start_ts(), Some(b"p".to_vec())).is_protected());
    assert!(!Write::new(WriteType::Rollback, start_ts(), Some(b"pp".to_vec())).is_protected());
    assert!(!Write::new(WriteType::Rollback, start_ts(), Some(b"q".to_vec())).is_protected());
    assert!(!Write::new(WriteType::Rollback, start_ts(), Some(Vec::new())).is_protected());
}

#[test]
fn missing_lock_collapses_the_previous_rollback() {
    let snapshot = store_with(vec![
        (60, Write::new_rollback(TimeStamp::new(60), false)),
        (80, Write::new_rollback(TimeStamp::new(80), false)),
        (130, Write::new_rollback(TimeStamp::new(130), false)),
    ]);
    let mut txn = MvccTxn::new(snapshot, start_ts());
    let status = check_txn_status_missing_lock(
        &mut txn,
        Key::from_raw(PRIMARY),
        None,
        MissingLockAction::UnprotectedRollback,
        false,
    );
    assert_eq!(status, Ok(TxnStatus::LockNotExist));
    // Only the newest version at or before the start timestamp goes.
    assert_eq!(
        txn.into_modifies(),
        vec![
            Modify::DeleteWrite { key: Key::from_raw(PRIMARY), commit_ts: TimeStamp::new(80) },
            Modify::PutWrite {
                key: Key::from_raw(PRIMARY),
                commit_ts: start_ts(),
                write: Write::new_rollback(start_ts(), false),
            },
        ]
    );
}

#[test]
fn missing_lock_keeps_the_previous_rollback_when_told_to() {
    let snapshot = store_with(vec![(80, Write::new_rollback(TimeStamp::new(80), false))]);
    let mut txn = MvccTxn::new(snapshot, start_ts());
    txn.set_collapse_rollback(false);
    check_txn_status_missing_lock(
        &mut txn,
        Key::from_raw(PRIMARY),
        None,
        MissingLockAction::UnprotectedRollback,
        false,
    )
    .unwrap();
    assert_eq!(txn.modifies.len(), 1);

    // A protected rollback record is never collapsed.
    let snapshot = store_with(vec![(80, Write::new_rollback(TimeStamp::new(80), true))]);
    let mut txn = MvccTxn::new(snapshot, start_ts());
    check_txn_status_missing_lock(
        &mut txn,
        Key::from_raw(PRIMARY),
        None,
        MissingLockAction::UnprotectedRollback,
        false,
    )
    .unwrap();
    assert_eq!(txn.modifies.len(), 1);
}

#[test]
fn rollback_is_marked_on_the_lock_that_could_overwrite_it() {
    let mut txn = MvccTxn::new(Snapshot::new(), start_ts());
    let lock = other_lock(100, true);
    let status = check_txn_status_missing_lock(
        &mut txn,
        Key::from_raw(PRIMARY),
        Some(lock.clone()),
        MissingLockAction::ProtectedRollback,
        false,
    );
    assert_eq!(status, Ok(TxnStatus::LockNotExist));
    let mut marked = lock;
    marked.rollback_ts.push(start_ts());
    assert_eq!(
        txn.into_modifies(),
        vec![
            Modify::PutLock { key: Key::from_raw(PRIMARY), lock: marked },
            Modify::PutWrite {
                key: Key::from_raw(PRIMARY),
                commit_ts: start_ts(),
                write: Write::new_rollback(start_ts(), true),
            },
        ]
    );
}

#[test]
fn rollback_is_not_marked_where_it_cannot_be_overwritten() {
    let cases = [
        // An unprotected rollback may be overwritten.
        (other_lock(100, true), MissingLockAction::UnprotectedRollback),
        // The lock will commit after the start timestamp.
        (other_lock(101, true), MissingLockAction::ProtectedRollback),
        // The commit timestamp of the lock is not calculated.
        (other_lock(100, false), MissingLockAction::ProtectedRollback),
    ];
    for (lock, action) in cases {
        let mut txn = MvccTxn::new(Snapshot::new(), start_ts());
        let status =
            check_txn_status_missing_lock(&mut txn, Key::from_raw(PRIMARY), Some(lock), action, false);
        assert_eq!(status, Ok(TxnStatus::LockNotExist));
        assert_eq!(txn.modifies.len(), 1);
        assert!(matches!(txn.modifies[0], Modify::PutWrite { .. }));
    }
}

#[test]
fn rollback_is_folded_into_the_record_of_another_transaction() {
    let other = Write::new(WriteType::Put, TimeStamp::new(95), Some(b"value".to_vec()));

    let mut txn = MvccTxn::new(store_with(vec![(100, other.clone())]), start_ts());
    let status = check_txn_status_missing_lock(
        &mut txn,
        Key::from_raw(PRIMARY),
        Some(other_lock(100, true)),
        MissingLockAction::ProtectedRollback,
        false,
    );
    assert_eq!(status, Ok(TxnStatus::LockNotExist));
    let mut folded = other.clone();
    folded.has_overlapped_rollback = true;
    // The lock is not marked: the record at the start timestamp is taken.
    assert_eq!(
        txn.into_modifies(),
        vec![Modify::PutWrite {
            key: Key::from_raw(PRIMARY),
            commit_ts: start_ts(),
            write: folded
        }]
    );

    // An unprotected rollback leaves no record at all.
    let mut txn = MvccTxn::new(store_with(vec![(100, other)]), start_ts());
    let status = check_txn_status_missing_lock(
        &mut txn,
        Key::from_raw(PRIMARY),
        None,
        MissingLockAction::UnprotectedRollback,
        false,
    );
    assert_eq!(status, Ok(TxnStatus::LockNotExist));
    assert!(txn.modifies.is_empty());
}

#[test]
fn rollback_is_not_repeated() {
    let other = Write::new(WriteType::Put, TimeStamp::new(95), None);
    let stores = [
        vec![],
        vec![(80, Write::new_rollback(TimeStamp::new(80), false))],
        vec![(100, other), (130, Write::new(WriteType::Put, TimeStamp::new(125), None))],
    ];
    for versions in stores {
        let mut txn = MvccTxn::new(store_with(versions.clone()), start_ts());
        let first = check_txn_status_missing_lock(
            &mut txn,
            Key::from_raw(PRIMARY),
            Some(other_lock(100, true)),
            MissingLockAction::ProtectedRollback,
            false,
        );
        assert_eq!(first, Ok(TxnStatus::LockNotExist));

        let mut snapshot = store_with(versions);
        snapshot.apply(txn.into_modifies());
        let mut txn = MvccTxn::new(snapshot, start_ts());
        let second = check_txn_status_missing_lock(
            &mut txn,
            Key::from_raw(PRIMARY),
            Some(other_lock(100, true)),
            MissingLockAction::ProtectedRollback,
            false,
        );
        assert_eq!(second, Ok(TxnStatus::RolledBack));
        assert!(txn.modifies.is_empty());
    }
}

#[test]
fn missing_lock_actions_from_flags() {
    assert_eq!(MissingLockAction::rollback_protect(true), MissingLockAction::ProtectedRollback);
    assert_eq!(MissingLockAction::rollback_protect(false), MissingLockAction::UnprotectedRollback);
    assert_eq!(MissingLockAction::rollback(true), MissingLockAction::ProtectedRollback);
    assert_eq!(MissingLockAction::rollback(false), MissingLockAction::ReturnError);
}

#[test]
fn probe_without_lock_asks_for_a_lock_of_another_transaction() {
    let txn = MvccTxn::new(Snapshot::new(), start_ts());
    let key = Key::from_raw(PRIMARY);
    let own = Lock::new(
        LockType::Put,
        PRIMARY.to_vec(),
        start_ts(),
        10,
        None,
        TimeStamp::zero(),
        TimeStamp::zero(),
    );
    for action in [
        MissingLockAction::ReturnError,
        MissingLockAction::ProtectedRollback,
        MissingLockAction::UnprotectedRollback,
    ] {
        assert!(!can_check_txn_status_missing_lock(&txn, &key, &Some(own.clone()), action, false));
        assert!(can_check_txn_status_missing_lock(
            &txn,
            &key,
            &Some(other_lock(0, false)),
            action,
            false
        ));
        assert!(can_check_txn_status_missing_lock(&txn, &key, &None, action, true));
    }
}

#[test]
fn probe_without_lock_asks_for_an_older_record_at_the_start_timestamp() {
    let key = Key::from_raw(PRIMARY);
    let younger = Write::new(WriteType::Put, TimeStamp::new(101), None);
    let txn = MvccTxn::new(store_with(vec![(100, younger)]), start_ts());
    // Only a probe that rolls back reads the record.
    assert!(!can_check_txn_status_missing_lock(
        &txn,
        &key,
        &None,
        MissingLockAction::ProtectedRollback,
        false
    ));
    assert!(!can_check_txn_status_missing_lock(
        &txn,
        &key,
        &None,
        MissingLockAction::UnprotectedRollback,
        false
    ));
    assert!(can_check_txn_status_missing_lock(
        &txn,
        &key,
        &None,
        MissingLockAction::ReturnError,
        false
    ));
    assert!(can_check_txn_status_missing_lock(
        &txn,
        &key,
        &None,
        MissingLockAction::ProtectedRollback,
        true
    ));
    let older = Write::new(WriteType::Put, TimeStamp::new(99), None);
    let txn = MvccTxn::new(store_with(vec![(100, older)]), start_ts());
    assert!(can_check_txn_status_missing_lock(
        &txn,
        &key,
        &None,
        MissingLockAction::ProtectedRollback,
        false
    ));
    // A record of the transaction itself settles the status.
    let own = Write::new(WriteType::Put, start_ts(), None);
    let txn = MvccTxn::new(store_with(vec![(120, own)]), start_ts());
    assert!(can_check_txn_status_missing_lock(
        &txn,
        &key,
        &None,
        MissingLockAction::ProtectedRollback,
        false
    ));
}

#[test]
fn rollback_is_not_repeated_after_commit() {
    let mut txn = MvccTxn::new(
        store_with(vec![(80, Write::new_rollback(TimeStamp::new(80), false))]),
        start_ts(),
    );
    let first = check_txn_status_missing_lock(
        &mut txn,
        Key::from_raw(PRIMARY),
        None,
        MissingLockAction::UnprotectedRollback,
        false,
    );
    assert_eq!(first, Ok(TxnStatus::LockNotExist));
    let mut txn = MvccTxn::new(txn.commit(), start_ts());
    // The earlier rollback record is gone, the new one is there.
    assert_eq!(
        txn.reader.seek_write(&Key::from_raw(PRIMARY), TimeStamp::max()),
        Some((start_ts(), Write::new_rollback(start_ts(), false)))
    );
    assert_eq!(txn.reader.seek_write(&Key::from_raw(PRIMARY), TimeStamp::new(99)), None);
    let second = check_txn_status_missing_lock(
        &mut txn,
        Key::from_raw(PRIMARY),
        None,
        MissingLockAction::UnprotectedRollback,
        false,
    );
    assert_eq!(second, Ok(TxnStatus::RolledBack));
    assert!(txn.modifies.is_empty());
}
