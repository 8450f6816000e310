use txn_actions::{
    Key, Lock, LockType, Modify, MvccReader, MvccTxn, ReleasedLock, Snapshot, TimeStamp,
    TxnCommitRecord, Write, WriteType,
};

fn key() -> Key {
    Key::from_raw(b"k")
}

fn put(start_ts: u64) -> Write {
    Write::new(WriteType::Put, TimeStamp::new(start_ts), None)
}

fn store_with(versions: Vec<(u64, Write)>) -> Snapshot {
    let mut snapshot = Snapshot::new();
    for (commit_ts, write) in versions {
        snapshot.put_write(key(), TimeStamp::new(commit_ts), write);
    }
    snapshot
}

fn some_lock(ts: u64) -> Lock {
    Lock::new(
        LockType::Put,
        b"k".to_vec(),
        TimeStamp::new(ts),
        3,
        Some(b"v".to_vec()),
        TimeStamp::zero(),
        TimeStamp::zero(),
    )
}

#[test]
fn timestamp_components() {
    let ts = TimeStamp::compose(5, 3);
    assert_eq!(ts.into_inner(), 5 * 262_144 + 3);
    assert_eq!(ts.physical(), 5);
    assert_eq!(TimeStamp::new(262_143).physical(), 0);
    assert_eq!(TimeStamp::new(262_144).physical(), 1);
    assert_eq!(TimeStamp::max().physical(), u64::MAX >> 18);
    assert_eq!(TimeStamp::zero().physical(), 0);
}

#[test]
fn timestamp_steps_and_sentinels() {
    assert_eq!(TimeStamp::new(7).next(), TimeStamp::new(8));
    assert_eq!(TimeStamp::new(7).prev(), TimeStamp::new(6));
    assert_eq!(TimeStamp::new(u64::MAX - 1).next(), TimeStamp::max());
    assert_eq!(TimeStamp::new(1).prev(), TimeStamp::zero());
    assert!(TimeStamp::max().is_max());
    assert!(!TimeStamp::new(u64::MAX - 1).is_max());
    assert!(TimeStamp::zero().is_zero());
    assert!(!TimeStamp::new(1).is_zero());
    assert_eq!(TimeStamp::default(), TimeStamp::zero());
    assert_eq!(TimeStamp::from(42), TimeStamp::new(42));
    assert!(TimeStamp::new(3) < TimeStamp::new(4));
    assert!(TimeStamp::new(4) < TimeStamp::max());
}

#[test]
fn key_round_trip() {
    let key = Key::from_raw(b"row-1");
    assert_eq!(key.to_raw(), b"row-1".to_vec());
    assert!(key.is_encoded_from(b"row-1"));
    assert!(!key.is_encoded_from(b"row-2"));
    assert!(!key.is_encoded_from(b"row-"));
    assert!(key.same_as(&key.clone()));
    assert!(!key.same_as(&Key::from_raw(b"")));
    assert_eq!(key.into_raw(), b"row-1".to_vec());
    assert_eq!(Key::from_raw(b"").to_raw(), Vec::<u8>::new());
}

#[test]
fn seek_write_finds_the_newest_version_at_or_before() {
    let snapshot = store_with(vec![(20, put(19)), (10, put(9)), (30, put(29))]);
    assert_eq!(snapshot.seek_write(&key(), TimeStamp::new(9)), None);
    assert_eq!(snapshot.seek_write(&key(), TimeStamp::new(10)), Some((TimeStamp::new(10), put(9))));
    assert_eq!(snapshot.seek_write(&key(), TimeStamp::new(19)), Some((TimeStamp::new(10), put(9))));
    assert_eq!(snapshot.seek_write(&key(), TimeStamp::new(20)), Some((TimeStamp::new(20), put(19))));
    assert_eq!(snapshot.seek_write(&key(), TimeStamp::max()), Some((TimeStamp::new(30), put(29))));
    assert_eq!(snapshot.seek_write(&Key::from_raw(b"other"), TimeStamp::max()), None);
    assert_eq!(Snapshot::new().seek_write(&key(), TimeStamp::max()), None);
}

#[test]
fn later_put_replaces_the_version() {
    let mut snapshot = store_with(vec![(10, put(9))]);
    snapshot.put_write(key(), TimeStamp::new(10), put(8));
    assert_eq!(snapshot.seek_write(&key(), TimeStamp::new(10)), Some((TimeStamp::new(10), put(8))));
    snapshot.delete_write(&key(), TimeStamp::new(10));
    assert_eq!(snapshot.seek_write(&key(), TimeStamp::max()), None);
}

#[test]
fn delete_write_removes_one_version() {
    let mut snapshot = store_with(vec![(10, put(9)), (20, put(19))]);
    snapshot.put_write(Key::from_raw(b"other"), TimeStamp::new(20), put(1));
    snapshot.delete_write(&key(), TimeStamp::new(20));
    assert_eq!(snapshot.seek_write(&key(), TimeStamp::max()), Some((TimeStamp::new(10), put(9))));
    assert_eq!(
        snapshot.seek_write(&Key::from_raw(b"other"), TimeStamp::max()),
        Some((TimeStamp::new(20), put(1)))
    );
    // Removing what is not there changes nothing.
    snapshot.delete_write(&key(), TimeStamp::new(15));
    assert_eq!(snapshot.seek_write(&key(), TimeStamp::max()), Some((TimeStamp::new(10), put(9))));
}

#[test]
fn lock_table_holds_one_lock_per_key() {
    let mut snapshot = Snapshot::new();
    assert_eq!(snapshot.load_lock(&key()), None);
    snapshot.put_lock(key(), some_lock(5));
    snapshot.put_lock(Key::from_raw(b"other"), some_lock(6));
    assert_eq!(snapshot.load_lock(&key()), Some(some_lock(5)));
    snapshot.put_lock(key(), some_lock(7));
    assert_eq!(snapshot.load_lock(&key()), Some(some_lock(7)));
    snapshot.delete_lock(&key());
    assert_eq!(snapshot.load_lock(&key()), None);
    assert_eq!(snapshot.load_lock(&Key::from_raw(b"other")), Some(some_lock(6)));
    assert_eq!(MvccReader::new(snapshot).load_lock(&Key::from_raw(b"other")), Some(some_lock(6)));
}

#[test]
fn modifications_are_applied_in_order() {
    let mut snapshot = Snapshot::new();
    snapshot.apply(vec![
        Modify::PutWrite { key: key(), commit_ts: TimeStamp::new(10), write: put(9) },
        Modify::PutLock { key: key(), lock: some_lock(11) },
        Modify::DeleteWrite { key: key(), commit_ts: TimeStamp::new(10) },
        Modify::PutWrite { key: key(), commit_ts: TimeStamp::new(12), write: put(11) },
        Modify::DeleteLock { key: key() },
        Modify::PutLock { key: key(), lock: some_lock(13) },
    ]);
    assert_eq!(snapshot.seek_write(&key(), TimeStamp::max()), Some((TimeStamp::new(12), put(11))));
    assert_eq!(snapshot.seek_write(&key(), TimeStamp::new(11)), None);
    assert_eq!(snapshot.load_lock(&key()), Some(some_lock(13)));
    snapshot.apply_one(Modify::DeleteLock { key: key() });
    assert_eq!(snapshot.load_lock(&key()), None);
    snapshot.apply(Vec::new());
    assert_eq!(snapshot.seek_write(&key(), TimeStamp::max()), Some((TimeStamp::new(12), put(11))));
}

#[test]
fn get_write_passes_over_locks_and_rollbacks() {
    let reader = MvccReader::new(store_with(vec![
        (10, put(9)),
        (20, Write::new(WriteType::Lock, TimeStamp::new(19), None)),
        (30, Write::new_rollback(TimeStamp::new(30), false)),
        (40, Write::new(WriteType::Delete, TimeStamp::new(39), None)),
        (50, Write::new(WriteType::Lock, TimeStamp::new(49), None)),
    ]));
    assert_eq!(reader.get_write(&key(), TimeStamp::new(9)), None);
    assert_eq!(reader.get_write(&key(), TimeStamp::new(10)), Some(put(9)));
    assert_eq!(reader.get_write(&key(), TimeStamp::new(35)), Some(put(9)));
    assert_eq!(reader.get_write(&key(), TimeStamp::new(40)), None);
    assert_eq!(reader.get_write(&key(), TimeStamp::max()), None);
    assert!(reader.key_exist(&key(), TimeStamp::new(39)));
    assert!(!reader.key_exist(&key(), TimeStamp::new(50)));
    assert!(!reader.key_exist(&Key::from_raw(b"other"), TimeStamp::max()));
}

#[test]
fn get_write_ends_at_timestamp_zero() {
    let reader = MvccReader::new(store_with(vec![(
        0,
        Write::new(WriteType::Lock, TimeStamp::zero(), None),
    )]));
    assert_eq!(reader.get_write(&key(), TimeStamp::new(5)), None);
    assert_eq!(reader.seek_write(&key(), TimeStamp::zero()).map(|found| found.0), Some(TimeStamp::zero()));
}

#[test]
fn commit_record_shapes() {
    let other = put(95);
    let reader = MvccReader::new(store_with(vec![
        (90, put(80)),
        (100, other.clone()),
        (120, put(110)),
        (140, put(105)),
    ]));
    // Committed later than a transaction that started later.
    assert_eq!(
        reader.get_txn_commit_record(&key(), TimeStamp::new(105)),
        TxnCommitRecord::SingleRecord { commit_ts: TimeStamp::new(140), write: put(105) }
    );
    assert_eq!(
        reader.get_txn_commit_record(&key(), TimeStamp::new(110)),
        TxnCommitRecord::SingleRecord { commit_ts: TimeStamp::new(120), write: put(110) }
    );
    // Another transaction committed at the start timestamp.
    assert_eq!(
        reader.get_txn_commit_record(&key(), TimeStamp::new(100)),
        TxnCommitRecord::NoRecord { overlapped_write: Some(other) }
    );
    assert_eq!(
        reader.get_txn_commit_record(&key(), TimeStamp::new(115)),
        TxnCommitRecord::NoRecord { overlapped_write: None }
    );
    assert_eq!(
        reader.get_txn_commit_record(&key(), TimeStamp::new(1)),
        TxnCommitRecord::NoRecord { overlapped_write: None }
    );
    assert_eq!(
        reader.get_txn_commit_record(&Key::from_raw(b"other"), TimeStamp::new(105)),
        TxnCommitRecord::NoRecord { overlapped_write: None }
    );
}

#[test]
fn commit_record_of_a_folded_rollback() {
    let reader = MvccReader::new(store_with(vec![(100, put(95).set_overlapped_rollback(true))]));
    assert_eq!(
        reader.get_txn_commit_record(&key(), TimeStamp::new(100)),
        TxnCommitRecord::OverlappedRollback { commit_ts: TimeStamp::new(100) }
    );
    // The record is still the commit record of the transaction that wrote it.
    assert_eq!(
        reader.get_txn_commit_record(&key(), TimeStamp::new(95)),
        TxnCommitRecord::SingleRecord {
            commit_ts: TimeStamp::new(100),
            write: put(95).set_overlapped_rollback(true)
        }
    );
}

#[test]
fn context_enqueues_in_order() {
    let mut txn = MvccTxn::new(Snapshot::new(), TimeStamp::new(10));
    assert!(txn.collapse_rollback);
    assert_eq!(txn.start_ts, TimeStamp::new(10));
    txn.put_lock(key(), &some_lock(10));
    txn.put_write(key(), TimeStamp::new(12), put(10));
    txn.delete_write(key(), TimeStamp::new(3));
    let released = txn.unlock_key(key(), true);
    assert_eq!(released, Some(ReleasedLock { key: key(), pessimistic: true }));
    assert_eq!(released, Some(ReleasedLock::new(&key(), true)));
    assert_eq!(
        txn.into_modifies(),
        vec![
            Modify::PutLock { key: key(), lock: some_lock(10) },
            Modify::PutWrite { key: key(), commit_ts: TimeStamp::new(12), write: put(10) },
            Modify::DeleteWrite { key: key(), commit_ts: TimeStamp::new(3) },
            Modify::DeleteLock { key: key() },
        ]
    );
}

#[test]
fn context_reads_the_snapshot_only() {
    let mut txn = MvccTxn::new(store_with(vec![(10, put(9))]), TimeStamp::new(20));
    txn.delete_write(key(), TimeStamp::new(10));
    // What is enqueued is not visible before it is applied.
    assert!(txn.key_exist(&key(), TimeStamp::new(15)));
    assert!(!txn.key_exist(&key(), TimeStamp::new(9)));
}

#[test]
fn rollback_is_possible_without_a_trace_only() {
    let cases = vec![
        (vec![], true),
        (vec![(90, put(80)), (130, put(120))], true),
        // Another, older transaction committed at the start timestamp.
        (vec![(100, put(95))], true),
        // A record at the start timestamp of a transaction that is not older.
        (vec![(100, put(101))], false),
        (vec![(120, put(100))], false),
        (vec![(100, Write::new_rollback(TimeStamp::new(100), false))], false),
        (vec![(100, put(95).set_overlapped_rollback(true))], false),
    ];
    for (versions, expected) in cases {
        let txn = MvccTxn::new(store_with(versions), TimeStamp::new(100));
        assert_eq!(txn.can_roll_back(&key()), expected);
    }
}

#[test]
fn collapse_removes_only_an_unprotected_rollback() {
    let cases = vec![
        (Write::new_rollback(TimeStamp::new(80), false), true),
        (Write::new_rollback(TimeStamp::new(80), true), false),
        (put(70), false),
        (Write::new(WriteType::Lock, TimeStamp::new(70), None), false),
    ];
    for (previous, collapsed) in cases {
        let mut txn = MvccTxn::new(
            store_with(vec![(60, Write::new_rollback(TimeStamp::new(60), false)), (80, previous)]),
            TimeStamp::new(100),
        );
        txn.collapse_prev_rollback(key());
        if collapsed {
            assert_eq!(
                txn.into_modifies(),
                vec![Modify::DeleteWrite { key: key(), commit_ts: TimeStamp::new(80) }]
            );
        } else {
            assert!(txn.modifies.is_empty());
        }
    }
}
