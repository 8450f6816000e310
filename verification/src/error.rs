//! The errors that the decisions of this crate can end in.

use crate::timestamp::TimeStamp;
use vstd::prelude::*;

verus! {

/// What went wrong.
#[derive(Debug, PartialEq, Eq)]
pub enum ErrorInner {
    /// An insert-only write found that the key holds a value.
    AlreadyExist { key: Vec<u8> },
    /// Nothing is known of the transaction, and the caller asked for
    /// certainty.
    TxnNotFound { start_ts: TimeStamp, key: Vec<u8> },
}

/// The mathematical value of an error.
pub enum ErrorView {
    AlreadyExist { key: Seq<u8> },
    TxnNotFound { start_ts: TimeStamp, key: Seq<u8> },
}

impl View for ErrorInner {
    type V = ErrorView;

    open spec fn view(&self) -> ErrorView {
        match *self {
            ErrorInner::AlreadyExist { key } => ErrorView::AlreadyExist { key: key@ },
            ErrorInner::TxnNotFound { start_ts, key } => ErrorView::TxnNotFound {
                start_ts,
                key: key@,
            },
        }
    }
}

/// An error of this crate.
#[derive(Debug, PartialEq, Eq)]
pub struct Error(pub Box<ErrorInner>);

impl View for Error {
    type V = ErrorView;

    open spec fn view(&self) -> ErrorView {
        self.0@
    }
}

impl From<ErrorInner> for Error {
    fn from(inner: ErrorInner) -> (res: Error) {
        Error(Box::new(inner))
    }
}

impl vstd::std_specs::convert::FromSpecImpl<ErrorInner> for Error {
    open spec fn obeys_from_spec() -> bool {
        true
    }

    open spec fn from_spec(inner: ErrorInner) -> Error {
        Error(Box::new(inner))
    }
}

pub type MvccResult<T> = Result<T, Error>;

/// The mathematical value of a result whose success carries nothing.
pub open spec fn unit_result_view(r: MvccResult<()>) -> Result<(), ErrorView> {
    match r {
        Ok(()) => Ok(()),
        Err(e) => Err(e@),
    }
}

} // verus!
