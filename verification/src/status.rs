//! The outcome of a transaction, as a status probe reports it.

use crate::lock::{Lock, LockView};
use crate::timestamp::TimeStamp;
use vstd::prelude::*;

verus! {

/// What has become of a transaction.
#[derive(Debug, PartialEq, Eq)]
pub enum TxnStatus {
    /// The transaction was rolled back before the probe.
    RolledBack,
    /// The lock had outlived its time to live, and the probe rolled the
    /// transaction back.
    TtlExpire,
    /// There was neither a lock nor a trace of the transaction, and the probe
    /// rolled the transaction back.
    LockNotExist,
    /// The transaction is still in flight.
    Uncommitted { lock: Lock, min_commit_ts_pushed: bool },
    /// The transaction was committed.
    Committed { commit_ts: TimeStamp },
    /// The expired pessimistic lock was released; no rollback was recorded.
    PessimisticRollBack,
    /// There was neither a lock nor a trace of the transaction, and the probe
    /// left it at that.
    LockNotExistDoNothing,
}

/// The mathematical value of a status.
pub enum TxnStatusView {
    RolledBack,
    TtlExpire,
    LockNotExist,
    Uncommitted { lock: LockView, min_commit_ts_pushed: bool },
    Committed { commit_ts: TimeStamp },
    PessimisticRollBack,
    LockNotExistDoNothing,
}

impl View for TxnStatus {
    type V = TxnStatusView;

    open spec fn view(&self) -> TxnStatusView {
        match *self {
            TxnStatus::RolledBack => TxnStatusView::RolledBack,
            TxnStatus::TtlExpire => TxnStatusView::TtlExpire,
            TxnStatus::LockNotExist => TxnStatusView::LockNotExist,
            TxnStatus::Uncommitted { lock, min_commit_ts_pushed } => TxnStatusView::Uncommitted {
                lock: lock@,
                min_commit_ts_pushed,
            },
            TxnStatus::Committed { commit_ts } => TxnStatusView::Committed { commit_ts },
            TxnStatus::PessimisticRollBack => TxnStatusView::PessimisticRollBack,
            TxnStatus::LockNotExistDoNothing => TxnStatusView::LockNotExistDoNothing,
        }
    }
}

impl TxnStatus {
    pub fn uncommitted(lock: Lock, min_commit_ts_pushed: bool) -> (res: TxnStatus)
        ensures
            res@ == (TxnStatusView::Uncommitted { lock: lock@, min_commit_ts_pushed }),
    {
        TxnStatus::Uncommitted { lock, min_commit_ts_pushed }
    }

    pub fn committed(commit_ts: TimeStamp) -> (res: TxnStatus)
        ensures
            res@ == (TxnStatusView::Committed { commit_ts }),
    {
        TxnStatus::Committed { commit_ts }
    }
}

} // verus!
