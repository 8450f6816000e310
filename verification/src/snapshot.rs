//! An in-memory store: the version histories and locks that a reader sees,
//! and the modifications that a transaction hands back.

use crate::key::Key;
use crate::lock::{Lock, LockView};
use crate::model::{seek_write, LockMap, ModifyView, SnapshotView, WriteMap};
use crate::model::{lemma_seek_write, lemma_seek_write_insert};
use crate::timestamp::TimeStamp;
use crate::write::{Write, WriteView};
use vstd::prelude::*;

verus! {

/// One pending modification of the store.
#[derive(Debug, PartialEq, Eq)]
pub enum Modify {
    /// Store `write` as the version of `key` committed at `commit_ts`.
    PutWrite { key: Key, commit_ts: TimeStamp, write: Write },
    /// Remove the version of `key` committed at `commit_ts`.
    DeleteWrite { key: Key, commit_ts: TimeStamp },
    /// Store `lock` as the lock of `key`.
    PutLock { key: Key, lock: Lock },
    /// Remove the lock of `key`.
    DeleteLock { key: Key },
}

impl View for Modify {
    type V = ModifyView;

    open spec fn view(&self) -> ModifyView {
        match *self {
            Modify::PutWrite { key, commit_ts, write } => ModifyView::PutWrite {
                key: key@,
                commit_ts,
                write: write@,
            },
            Modify::DeleteWrite { key, commit_ts } => ModifyView::DeleteWrite {
                key: key@,
                commit_ts,
            },
            Modify::PutLock { key, lock } => ModifyView::PutLock { key: key@, lock: lock@ },
            Modify::DeleteLock { key } => ModifyView::DeleteLock { key: key@ },
        }
    }
}

impl Clone for Modify {
    fn clone(&self) -> (res: Modify)
        ensures
            res@ == self@,
    {
        match self {
            Modify::PutWrite { key, commit_ts, write } => Modify::PutWrite {
                key: key.clone(),
                commit_ts: *commit_ts,
                write: write.clone(),
            },
            Modify::DeleteWrite { key, commit_ts } => Modify::DeleteWrite {
                key: key.clone(),
                commit_ts: *commit_ts,
            },
            Modify::PutLock { key, lock } => Modify::PutLock {
                key: key.clone(),
                lock: lock.clone(),
            },
            Modify::DeleteLock { key } => Modify::DeleteLock { key: key.clone() },
        }
    }
}

/// The mathematical values of a sequence of modifications.
pub open spec fn modifies_view(ms: Seq<Modify>) -> Seq<ModifyView> {
    ms.map_values(|m: Modify| m@)
}

/// The mathematical value of a version together with its commit timestamp.
pub open spec fn found_view(found: Option<(TimeStamp, Write)>) -> Option<(TimeStamp, WriteView)> {
    match found {
        Some((commit_ts, write)) => Some((commit_ts, write@)),
        None => None,
    }
}

/// The mathematical value of an optional lock.
pub open spec fn lock_option_view(lock: Option<Lock>) -> Option<LockView> {
    match lock {
        Some(l) => Some(l@),
        None => None,
    }
}

/// A stored version.
struct WriteEntry {
    key: Key,
    commit_ts: TimeStamp,
    write: Write,
}

/// A stored lock.
struct LockEntry {
    key: Key,
    lock: Lock,
}

/// The versions that a list of entries holds: a later entry replaces an
/// earlier one for the same key and commit timestamp.
spec fn writes_of(entries: Seq<WriteEntry>) -> WriteMap
    decreases entries.len(),
{
    if entries.len() == 0 {
        Map::empty()
    } else {
        writes_of(entries.drop_last()).insert(
            (entries.last().key@, entries.last().commit_ts),
            entries.last().write@,
        )
    }
}

/// The locks that a list of entries holds: a later entry replaces an earlier
/// one for the same key.
spec fn locks_of(entries: Seq<LockEntry>) -> LockMap
    decreases entries.len(),
{
    if entries.len() == 0 {
        Map::empty()
    } else {
        locks_of(entries.drop_last()).insert(entries.last().key@, entries.last().lock@)
    }
}

proof fn lemma_writes_of_next(entries: Seq<WriteEntry>, i: int)
    requires
        0 <= i < entries.len(),
    ensures
        writes_of(entries.take(i + 1)) == writes_of(entries.take(i)).insert(
            (entries[i].key@, entries[i].commit_ts),
            entries[i].write@,
        ),
{
    assert(entries.take(i + 1).drop_last() =~= entries.take(i));
}

proof fn lemma_locks_of_next(entries: Seq<LockEntry>, i: int)
    requires
        0 <= i < entries.len(),
    ensures
        locks_of(entries.take(i + 1)) == locks_of(entries.take(i)).insert(
            entries[i].key@,
            entries[i].lock@,
        ),
{
    assert(entries.take(i + 1).drop_last() =~= entries.take(i));
}

proof fn lemma_writes_of_push(entries: Seq<WriteEntry>, e: WriteEntry)
    ensures
        writes_of(entries.push(e)) == writes_of(entries).insert((e.key@, e.commit_ts), e.write@),
{
    assert(entries.push(e).drop_last() =~= entries);
}

proof fn lemma_locks_of_push(entries: Seq<LockEntry>, e: LockEntry)
    ensures
        locks_of(entries.push(e)) == locks_of(entries).insert(e.key@, e.lock@),
{
    assert(entries.push(e).drop_last() =~= entries);
}

/// The store as one reader sees it, held in memory.
pub struct Snapshot {
    writes: Vec<WriteEntry>,
    locks: Vec<LockEntry>,
}

impl View for Snapshot {
    type V = SnapshotView;

    closed spec fn view(&self) -> SnapshotView {
        SnapshotView { writes: writes_of(self.writes@), locks: locks_of(self.locks@) }
    }
}

impl Snapshot {
    /// The store that holds nothing.
    pub fn new() -> (res: Snapshot)
        ensures
            res@ == SnapshotView::empty(),
    {
        Snapshot { writes: Vec::new(), locks: Vec::new() }
    }

    /// The newest version of `key` that was committed at or before `ts`.
    pub fn seek_write(&self, key: &Key, ts: TimeStamp) -> (res: Option<(TimeStamp, Write)>)
        ensures
            found_view(res) == seek_write(self@.writes, key@, ts.0),
    {
        let mut best: Option<usize> = None;
        let mut i: usize = 0;
        proof {
            lemma_seek_write(writes_of(self.writes@.take(0)), key@, ts.0);
        }
        while i < self.writes.len()
            invariant
                i <= self.writes.len(),
                match best {
                    Some(j) => j < i && seek_write(
                        writes_of(self.writes@.take(i as int)),
                        key@,
                        ts.0,
                    ) == Some(
                        (self.writes@[j as int].commit_ts, self.writes@[j as int].write@),
                    ),
                    None => seek_write(writes_of(self.writes@.take(i as int)), key@, ts.0)
                        is None,
                },
            decreases self.writes.len() - i,
        {
            let entry = &self.writes[i];
            proof {
                lemma_writes_of_next(self.writes@, i as int);
                lemma_seek_write_insert(
                    writes_of(self.writes@.take(i as int)),
                    (entry.key@, entry.commit_ts),
                    entry.write@,
                    key@,
                    ts.0,
                );
            }
            if entry.key.same_as(key) && entry.commit_ts.0 <= ts.0 {
                let newer: bool = match best {
                    Some(j) => self.writes[j].commit_ts.0 <= entry.commit_ts.0,
                    None => true,
                };
                if newer {
                    best = Some(i);
                }
            }
            i += 1;
        }
        assert(self.writes@.take(i as int) =~= self.writes@);
        match best {
            Some(j) => Some((self.writes[j].commit_ts, self.writes[j].write.clone())),
            None => None,
        }
    }

    /// The lock of `key`, if it has one.
    pub fn load_lock(&self, key: &Key) -> (res: Option<Lock>)
        ensures
            lock_option_view(res) == self@.lock_of(key@),
    {
        let mut best: Option<usize> = None;
        let mut i: usize = 0;
        while i < self.locks.len()
            invariant
                i <= self.locks.len(),
                match best {
                    Some(j) => {
                        &&& j < i
                        &&& locks_of(self.locks@.take(i as int)).contains_key(key@)
                        &&& locks_of(self.locks@.take(i as int))[key@] == self.locks@[j as int].lock@
                    },
                    None => !locks_of(self.locks@.take(i as int)).contains_key(key@),
                },
            decreases self.locks.len() - i,
        {
            proof {
                lemma_locks_of_next(self.locks@, i as int);
            }
            if self.locks[i].key.same_as(key) {
                best = Some(i);
            }
            i += 1;
        }
        assert(self.locks@.take(i as int) =~= self.locks@);
        match best {
            Some(j) => Some(self.locks[j].lock.clone()),
            None => None,
        }
    }

    /// Stores `write` as the version of `key` committed at `commit_ts`.
    pub fn put_write(&mut self, key: Key, commit_ts: TimeStamp, write: Write)
        ensures
            final(self)@ == old(self)@.apply(
                ModifyView::PutWrite { key: key@, commit_ts, write: write@ },
            ),
    {
        let entry = WriteEntry { key, commit_ts, write };
        proof {
            lemma_writes_of_push(self.writes@, entry);
        }
        self.writes.push(entry);
    }

    /// Removes the version of `key` committed at `commit_ts`.
    pub fn delete_write(&mut self, key: &Key, commit_ts: TimeStamp)
        ensures
            final(self)@ == old(self)@.apply(ModifyView::DeleteWrite { key: key@, commit_ts }),
    {
        let mut kept: Vec<WriteEntry> = Vec::new();
        let mut i: usize = 0;
        while i < self.writes.len()
            invariant
                i <= self.writes.len(),
                writes_of(kept@) == writes_of(self.writes@.take(i as int)).remove(
                    (key@, commit_ts),
                ),
            decreases self.writes.len() - i,
        {
            let entry = &self.writes[i];
            proof {
                lemma_writes_of_next(self.writes@, i as int);
            }
            if entry.key.same_as(key) && entry.commit_ts.0 == commit_ts.0 {
                assert(writes_of(self.writes@.take(i + 1)).remove((key@, commit_ts)) =~= writes_of(
                    self.writes@.take(i as int),
                ).remove((key@, commit_ts)));
            } else {
                let copy = WriteEntry {
                    key: entry.key.clone(),
                    commit_ts: entry.commit_ts,
                    write: entry.write.clone(),
                };
                proof {
                    lemma_writes_of_push(kept@, copy);
                    assert(writes_of(kept@.push(copy)) =~= writes_of(
                        self.writes@.take(i + 1),
                    ).remove((key@, commit_ts)));
                }
                kept.push(copy);
            }
            i += 1;
        }
        assert(self.writes@.take(i as int) =~= self.writes@);
        self.writes = kept;
    }

    /// Stores `lock` as the lock of `key`.
    pub fn put_lock(&mut self, key: Key, lock: Lock)
        ensures
            final(self)@ == old(self)@.apply(ModifyView::PutLock { key: key@, lock: lock@ }),
    {
        let entry = LockEntry { key, lock };
        proof {
            lemma_locks_of_push(self.locks@, entry);
        }
        self.locks.push(entry);
    }

    /// Removes the lock of `key`.
    pub fn delete_lock(&mut self, key: &Key)
        ensures
            final(self)@ == old(self)@.apply(ModifyView::DeleteLock { key: key@ }),
    {
        let mut kept: Vec<LockEntry> = Vec::new();
        let mut i: usize = 0;
        while i < self.locks.len()
            invariant
                i <= self.locks.len(),
                locks_of(kept@) == locks_of(self.locks@.take(i as int)).remove(key@),
            decreases self.locks.len() - i,
        {
            let entry = &self.locks[i];
            proof {
                lemma_locks_of_next(self.locks@, i as int);
            }
            if entry.key.same_as(key) {
                assert(locks_of(self.locks@.take(i + 1)).remove(key@) =~= locks_of(
                    self.locks@.take(i as int),
                ).remove(key@));
            } else {
                let copy = LockEntry { key: entry.key.clone(), lock: entry.lock.clone() };
                proof {
                    lemma_locks_of_push(kept@, copy);
                    assert(locks_of(kept@.push(copy)) =~= locks_of(
                        self.locks@.take(i + 1),
                    ).remove(key@));
                }
                kept.push(copy);
            }
            i += 1;
        }
        assert(self.locks@.take(i as int) =~= self.locks@);
        self.locks = kept;
    }

    /// Carries out one modification.
    pub fn apply_one(&mut self, modify: Modify)
        ensures
            final(self)@ == old(self)@.apply(modify@),
    {
        match modify {
            Modify::PutWrite { key, commit_ts, write } => self.put_write(key, commit_ts, write),
            Modify::DeleteWrite { key, commit_ts } => self.delete_write(&key, commit_ts),
            Modify::PutLock { key, lock } => self.put_lock(key, lock),
            Modify::DeleteLock { key } => self.delete_lock(&key),
        }
    }

    /// Carries out the modifications in order.
    pub fn apply(&mut self, modifies: Vec<Modify>)
        ensures
            final(self)@ == old(self)@.apply_all(modifies_view(modifies@)),
    {
        let mut i: usize = 0;
        while i < modifies.len()
            invariant
                i <= modifies.len(),
                self@ == old(self)@.apply_all(modifies_view(modifies@.take(i as int))),
            decreases modifies.len() - i,
        {
            let modify = modifies[i].clone();
            proof {
                let done = modifies_view(modifies@.take(i as int));
                let next = modifies_view(modifies@.take(i + 1));
                assert(next.drop_last() =~= done);
                assert(next.last() == modifies@[i as int]@);
            }
            self.apply_one(modify);
            i += 1;
        }
        assert(modifies@.take(i as int) =~= modifies@);
    }
}

} // verus!
