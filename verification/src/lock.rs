//! Lock records: the marks of transactions that have not finished yet.

use crate::timestamp::TimeStamp;
use crate::write::{bytes_view, clone_bytes};
use vstd::prelude::*;

verus! {

/// The kind of a lock.
#[derive(Clone, Copy, Debug, PartialEq, Eq, Structural, Hash)]
pub enum LockType {
    Put,
    Delete,
    Lock,
    Pessimistic,
}

/// A lock record: at most one exists for a key at any time.
#[derive(Debug, PartialEq, Eq)]
pub struct Lock {
    pub lock_type: LockType,
    /// The primary key of the transaction, in user-visible form.
    pub primary: Vec<u8>,
    /// The start timestamp of the transaction that holds the lock.
    pub ts: TimeStamp,
    /// Time to live, in units of physical time after `ts`.
    pub ttl: u64,
    pub short_value: Option<Vec<u8>>,
    /// Non-zero exactly for the locks of pessimistic transactions.
    pub for_update_ts: TimeStamp,
    /// A floor for the commit timestamp; zero when the transaction takes no
    /// part in commit-timestamp forwarding.
    pub min_commit_ts: TimeStamp,
    pub use_async_commit: bool,
    /// Start timestamps of the transactions whose rollback has been recorded
    /// in this lock.
    pub rollback_ts: Vec<TimeStamp>,
}

/// The mathematical value of a lock record.
pub struct LockView {
    pub lock_type: LockType,
    pub primary: Seq<u8>,
    pub ts: TimeStamp,
    pub ttl: u64,
    pub short_value: Option<Seq<u8>>,
    pub for_update_ts: TimeStamp,
    pub min_commit_ts: TimeStamp,
    pub use_async_commit: bool,
    pub rollback_ts: Seq<TimeStamp>,
}

impl LockView {
    /// Whether the lock belongs to a pessimistic transaction.
    pub open spec fn is_pessimistic_txn(self) -> bool {
        self.for_update_ts.0 != 0
    }

    /// Whether the lock's time to live has run out at `current_ts`.
    pub open spec fn is_expired(self, current_ts: TimeStamp) -> bool {
        self.ts.physical() + self.ttl < current_ts.physical()
    }
}

impl View for Lock {
    type V = LockView;

    open spec fn view(&self) -> LockView {
        LockView {
            lock_type: self.lock_type,
            primary: self.primary@,
            ts: self.ts,
            ttl: self.ttl,
            short_value: bytes_view(self.short_value),
            for_update_ts: self.for_update_ts,
            min_commit_ts: self.min_commit_ts,
            use_async_commit: self.use_async_commit,
            rollback_ts: self.rollback_ts@,
        }
    }
}

impl Clone for Lock {
    fn clone(&self) -> (res: Lock)
        ensures
            res@ == self@,
    {
        Lock {
            lock_type: self.lock_type,
            primary: self.primary.clone(),
            ts: self.ts,
            ttl: self.ttl,
            short_value: clone_bytes(&self.short_value),
            for_update_ts: self.for_update_ts,
            min_commit_ts: self.min_commit_ts,
            use_async_commit: self.use_async_commit,
            rollback_ts: self.rollback_ts.clone(),
        }
    }
}

impl Lock {
    /// A lock that does not use async commit and records no rollback.
    pub fn new(
        lock_type: LockType,
        primary: Vec<u8>,
        ts: TimeStamp,
        ttl: u64,
        short_value: Option<Vec<u8>>,
        for_update_ts: TimeStamp,
        min_commit_ts: TimeStamp,
    ) -> (res: Lock)
        ensures
            res@ == (LockView {
                lock_type,
                primary: primary@,
                ts,
                ttl,
                short_value: bytes_view(short_value),
                for_update_ts,
                min_commit_ts,
                use_async_commit: false,
                rollback_ts: Seq::empty(),
            }),
    {
        Lock {
            lock_type,
            primary,
            ts,
            ttl,
            short_value,
            for_update_ts,
            min_commit_ts,
            use_async_commit: false,
            rollback_ts: Vec::new(),
        }
    }

    /// The same lock, declared to use async commit.
    pub fn use_async_commit(self) -> (res: Lock)
        ensures
            res@ == (LockView { use_async_commit: true, ..self@ }),
    {
        let mut lock = self;
        lock.use_async_commit = true;
        lock
    }

    /// Whether the lock belongs to a pessimistic transaction.
    pub fn is_pessimistic_txn(&self) -> (res: bool)
        ensures
            res == self@.is_pessimistic_txn(),
    {
        !self.for_update_ts.is_zero()
    }

    /// Whether the lock's time to live has run out at `current_ts`.
    pub fn is_expired(&self, current_ts: TimeStamp) -> (res: bool)
        ensures
            res == self@.is_expired(current_ts),
    {
        match self.ts.physical().checked_add(self.ttl) {
            Some(deadline) => deadline < current_ts.physical(),
            None => false,
        }
    }
}

} // verus!
