//! The constraint of an insert-only write: the key must not hold a value.

use crate::error::{unit_result_view, Error, ErrorInner, ErrorView, MvccResult};
use crate::key::Key;
use crate::model::{key_exists, lemma_get_write_after_seek, seek_write, WriteMap};
use crate::timestamp::TimeStamp;
use crate::txn::MvccTxn;
use crate::write::{Write, WriteType, WriteView};
use vstd::prelude::*;

verus! {

/// Whether an insert-only write on `key` is in conflict with `write`, the
/// newest version of `key`, which was committed at `write_commit_ts`.
///
/// A `Put` is a value; a `Delete` is none. A `Lock` or a `Rollback` leaves
/// the value as it was, so the versions strictly before it decide.
pub open spec fn violates_constraint(
    writes: WriteMap,
    write: WriteView,
    write_commit_ts: TimeStamp,
    key: Seq<u8>,
) -> bool {
    match write.write_type {
        WriteType::Put => true,
        WriteType::Delete => false,
        WriteType::Lock | WriteType::Rollback => write_commit_ts.0 > 0 && key_exists(
            writes,
            key,
            (write_commit_ts.0 - 1) as u64,
        ),
    }
}

/// Checks that `key` holds no value, where `should_not_exist` asks for that.
/// `write` is the newest version of `key`, committed at `write_commit_ts`.
/// Nothing is enqueued.
pub fn check_data_constraint(
    txn: &mut MvccTxn,
    should_not_exist: bool,
    write: &Write,
    write_commit_ts: TimeStamp,
    key: &Key,
) -> (res: MvccResult<()>)
    ensures
        final(txn)@ == old(txn)@,
        unit_result_view(res) == if should_not_exist && violates_constraint(
            old(txn)@.snapshot.writes,
            write@,
            write_commit_ts,
            key@,
        ) {
            Err(ErrorView::AlreadyExist { key: key@ })
        } else {
            Ok(())
        },
        // A write that is not insert-only has nothing to protect.
        !should_not_exist ==> res is Ok,
        // After a deletion the key holds nothing.
        write.write_type == WriteType::Delete ==> res is Ok,
        // A `Put` is a value in plain sight.
        should_not_exist && write.write_type == WriteType::Put ==> unit_result_view(res) == Err::<
            (),
            ErrorView,
        >(ErrorView::AlreadyExist { key: key@ }),
{
    if !should_not_exist || write.write_type == WriteType::Delete {
        return Ok(());
    }
    // The key holds a value if the newest version is a `Put`, or if it is a
    // `Rollback` or a `Lock` and an older version gives the key a value.
    if write.write_type == WriteType::Put || (!write_commit_ts.is_zero() && txn.key_exist(
        key,
        write_commit_ts.prev(),
    )) {
        return Err(Error::from(ErrorInner::AlreadyExist { key: key.to_raw() }));
    }
    Ok(())
}

/// Under a `Lock` or `Rollback` record, the constraint is decided as it would
/// be for the version just before that record: it holds if there is no such
/// version, and else is violated exactly if it is violated for that version
/// at its own commit timestamp.
pub proof fn lemma_constraint_defers_to_preceding_version(
    writes: WriteMap,
    write: WriteView,
    write_commit_ts: TimeStamp,
    key: Seq<u8>,
)
    requires
        write.write_type == WriteType::Lock || write.write_type == WriteType::Rollback,
        write_commit_ts.0 > 0,
    ensures
        violates_constraint(writes, write, write_commit_ts, key) == match seek_write(
            writes,
            key,
            (write_commit_ts.0 - 1) as u64,
        ) {
            Some((commit_ts, preceding)) => violates_constraint(writes, preceding, commit_ts, key),
            None => false,
        },
{
    lemma_get_write_after_seek(writes, key, (write_commit_ts.0 - 1) as u64);
}

} // verus!
