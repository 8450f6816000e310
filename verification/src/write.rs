//! Write records: the committed facts in a key's version history.

use crate::timestamp::TimeStamp;
use vstd::prelude::*;

verus! {

/// The byte that, as the whole inline payload of a rollback record, marks the
/// record as protected: it must not be collapsed or overwritten.
pub const PROTECTED_ROLLBACK_MARK: u8 = 0x70;

/// The kind of a write record.
#[derive(Clone, Copy, Debug, PartialEq, Eq, Structural, Hash)]
pub enum WriteType {
    Put,
    Delete,
    Lock,
    Rollback,
}

/// A write record, stored in a key's history under its commit timestamp.
#[derive(Debug, PartialEq, Eq)]
pub struct Write {
    pub write_type: WriteType,
    pub start_ts: TimeStamp,
    pub short_value: Option<Vec<u8>>,
    /// Set when the rollback of another transaction, whose start timestamp is
    /// this record's commit timestamp, has been folded into this record.
    pub has_overlapped_rollback: bool,
}

/// The mathematical value of a write record.
pub struct WriteView {
    pub write_type: WriteType,
    pub start_ts: TimeStamp,
    pub short_value: Option<Seq<u8>>,
    pub has_overlapped_rollback: bool,
}

/// The mathematical value of an optional byte string.
pub open spec fn bytes_view(v: Option<Vec<u8>>) -> Option<Seq<u8>> {
    match v {
        Some(b) => Some(b@),
        None => None,
    }
}

/// A copy of an optional byte string.
pub fn clone_bytes(v: &Option<Vec<u8>>) -> (res: Option<Vec<u8>>)
    ensures
        bytes_view(res) == bytes_view(*v),
{
    match v {
        Some(b) => Some(b.clone()),
        None => None,
    }
}

impl WriteView {
    /// Whether the record is a rollback that must be kept.
    pub open spec fn is_protected(self) -> bool {
        self.write_type == WriteType::Rollback && self.short_value == Some(
            seq![PROTECTED_ROLLBACK_MARK],
        )
    }

    /// The rollback record of the transaction that started at `start_ts`.
    pub open spec fn new_rollback(start_ts: TimeStamp, protected: bool) -> WriteView {
        WriteView {
            write_type: WriteType::Rollback,
            start_ts,
            short_value: if protected {
                Some(seq![PROTECTED_ROLLBACK_MARK])
            } else {
                None
            },
            has_overlapped_rollback: false,
        }
    }

    /// The same record with its overlapped-rollback flag set to `flag`.
    pub open spec fn set_overlapped_rollback(self, flag: bool) -> WriteView {
        WriteView { has_overlapped_rollback: flag, ..self }
    }
}

impl View for Write {
    type V = WriteView;

    open spec fn view(&self) -> WriteView {
        WriteView {
            write_type: self.write_type,
            start_ts: self.start_ts,
            short_value: bytes_view(self.short_value),
            has_overlapped_rollback: self.has_overlapped_rollback,
        }
    }
}

impl Clone for Write {
    fn clone(&self) -> (res: Write)
        ensures
            res@ == self@,
    {
        Write {
            write_type: self.write_type,
            start_ts: self.start_ts,
            short_value: clone_bytes(&self.short_value),
            has_overlapped_rollback: self.has_overlapped_rollback,
        }
    }
}

impl Write {
    /// A record of the given kind with no rollback folded into it.
    pub fn new(write_type: WriteType, start_ts: TimeStamp, short_value: Option<Vec<u8>>) -> (res:
        Write)
        ensures
            res@ == (WriteView {
                write_type,
                start_ts,
                short_value: bytes_view(short_value),
                has_overlapped_rollback: false,
            }),
    {
        Write { write_type, start_ts, short_value, has_overlapped_rollback: false }
    }

    /// The rollback record of the transaction that started at `start_ts`.
    pub fn new_rollback(start_ts: TimeStamp, protected: bool) -> (res: Write)
        ensures
            res@ == WriteView::new_rollback(start_ts, protected),
    {
        let short_value: Option<Vec<u8>> = if protected {
            let mut mark: Vec<u8> = Vec::new();
            mark.push(PROTECTED_ROLLBACK_MARK);
            assert(mark@ =~= seq![PROTECTED_ROLLBACK_MARK]);
            Some(mark)
        } else {
            None
        };
        Write { write_type: WriteType::Rollback, start_ts, short_value, has_overlapped_rollback: false }
    }

    /// The same record with its overlapped-rollback flag set to `flag`.
    pub fn set_overlapped_rollback(self, flag: bool) -> (res: Write)
        ensures
            res@ == self@.set_overlapped_rollback(flag),
    {
        Write {
            write_type: self.write_type,
            start_ts: self.start_ts,
            short_value: self.short_value,
            has_overlapped_rollback: flag,
        }
    }

    /// Whether the record is a rollback that must be kept.
    pub fn is_protected(&self) -> (res: bool)
        ensures
            res == self@.is_protected(),
    {
        match self.write_type {
            WriteType::Rollback => match &self.short_value {
                Some(v) => {
                    let marked: bool = v.len() == 1 && v[0] == PROTECTED_ROLLBACK_MARK;
                    assert(marked == (v@ == seq![PROTECTED_ROLLBACK_MARK])) by {
                        if marked {
                            assert(v@ =~= seq![PROTECTED_ROLLBACK_MARK]);
                        } else if v.len() == 1 {
                            assert(seq![PROTECTED_ROLLBACK_MARK][0] == PROTECTED_ROLLBACK_MARK);
                        } else {
                            assert(seq![PROTECTED_ROLLBACK_MARK].len() == 1);
                        }
                    }
                    marked
                },
                None => false,
            },
            _ => false,
        }
    }
}

} // verus!
