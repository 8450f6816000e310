//! Transaction-status resolution and insert-constraint checking for a
//! multi-version key-value store.
//!
//! The crate decides, from a snapshot of a key's version history and an
//! observed lock, whether an insert-only write conflicts with an existing
//! value and what has become of a transaction. Every decision is a verified
//! function of its inputs; side effects are only ever enqueued into the
//! transaction context as pending modifications.

pub mod check_data_constraint;
pub mod check_txn_status;
pub mod error;
pub mod key;
pub mod lock;
pub mod model;
pub mod reader;
pub mod snapshot;
pub mod status;
pub mod timestamp;
pub mod txn;
pub mod write;

pub use crate::check_data_constraint::check_data_constraint;
pub use crate::check_txn_status::{
    can_check_txn_status_lock_exists, can_check_txn_status_missing_lock,
    check_txn_status_lock_exists, check_txn_status_missing_lock,
};
pub use crate::error::{Error, ErrorInner, MvccResult};
pub use crate::key::Key;
pub use crate::lock::{Lock, LockType};
pub use crate::reader::{MvccReader, TxnCommitRecord};
pub use crate::snapshot::{Modify, Snapshot};
pub use crate::status::TxnStatus;
pub use crate::timestamp::TimeStamp;
pub use crate::txn::{MissingLockAction, MvccTxn, ReleasedLock};
pub use crate::write::{Write, WriteType};
