//! The merge lock: a gate, keyed by relation and purpose, that decides who
//! may merge segments and reclaim segment metadata. It never makes a caller
//! wait: a lock that is taken is simply not given.

use vstd::prelude::*;

verus! {

/// What a lock on a relation is held for.
#[derive(Clone, Copy, Debug, PartialEq, Eq, Structural)]
pub enum LockPurpose {
    Merge,
    Delete,
}

/// A relation and a purpose: what one lock stands for.
#[derive(Clone, Copy, Debug, PartialEq, Eq, Structural)]
pub struct LockKey {
    pub relation_oid: u32,
    pub purpose: LockPurpose,
}

/// The token of a held lock. It cannot be copied; handing it to `release`
/// gives the lock up.
#[derive(Debug)]
pub struct MergeLock {
    key: LockKey,
}

impl MergeLock {
    /// The relation and the purpose that this token locks.
    pub closed spec fn spec_key(self) -> LockKey {
        self.key
    }

    /// The relation and the purpose that this token locks.
    pub fn key(&self) -> (key: LockKey)
        ensures
            key == self.spec_key(),
    {
        self.key
    }
}

/// The locks that are held, over all relations.
pub struct MergeLockTable {
    held: Vec<LockKey>,
}

impl MergeLockTable {
    /// The table's invariant: no lock is recorded twice.
    pub closed spec fn wf(self) -> bool {
        forall|i: int, j: int|
            0 <= i < j < self.held@.len() ==> self.held@[i] != self.held@[j]
    }

    /// Whether the lock for `key` is held.
    pub closed spec fn holds(self, key: LockKey) -> bool {
        self.held@.contains(key)
    }

    /// A table in which no lock is held.
    pub fn new() -> (table: Self)
        ensures
            table.wf(),
            forall|key: LockKey| !table.holds(key),
    {
        MergeLockTable { held: Vec::new() }
    }

    /// Whether the lock for `key` is held.
    pub fn is_held(&self, key: LockKey) -> (held: bool)
        ensures
            held == self.holds(key),
    {
        self.position(key).is_some()
    }

    /// Where `key` is recorded, if it is.
    fn position(&self, key: LockKey) -> (found: Option<usize>)
        ensures
            found is Some <==> self.holds(key),
            found matches Some(i) ==> i < self.held@.len() && self.held@[i as int] == key,
    {
        let mut i: usize = 0;
        while i < self.held.len()
            invariant
                i <= self.held@.len(),
                forall|j: int| 0 <= j < i ==> self.held@[j] != key,
            decreases self.held@.len() - i,
        {
            if self.held[i] == key {
                return Some(i);
            }
            i += 1;
        }
        None
    }

    /// Takes the lock for `key` if nobody holds it, and gives nothing
    /// otherwise, at once and without changing the table.
    pub fn acquire(&mut self, key: LockKey) -> (token: Option<MergeLock>)
        requires
            old(self).wf(),
        ensures
            final(self).wf(),
            token is Some <==> !old(self).holds(key),
            token matches Some(lock) ==> lock.spec_key() == key,
            token is Some ==> forall|other: LockKey|
                final(self).holds(other) == (old(self).holds(other) || other == key),
            token is None ==> *final(self) == *old(self),
    {
        if self.position(key).is_some() {
            return None;
        }
        let ghost before = self.held@;
        self.held.push(key);
        proof {
            let after = self.held@;
            assert forall|other: LockKey|
                after.contains(other) == (before.contains(other) || other == key) by {
                if before.contains(other) {
                    let i = choose|i: int| 0 <= i < before.len() && before[i] == other;
                    assert(after[i] == other);
                }
                if other == key {
                    assert(after[before.len() as int] == other);
                }
            }
        }
        Some(MergeLock { key })
    }

    /// Takes the merge lock of a relation if nobody holds it.
    pub fn acquire_for_merge(&mut self, relation_oid: u32) -> (token: Option<MergeLock>)
        requires
            old(self).wf(),
        ensures
            final(self).wf(),
            token is Some <==> !old(self).holds(merge_key(relation_oid)),
            token matches Some(lock) ==> lock.spec_key() == merge_key(relation_oid),
            token is Some ==> forall|other: LockKey|
                final(self).holds(other) == (old(self).holds(other) || other == merge_key(
                    relation_oid,
                )),
            token is None ==> *final(self) == *old(self),
    {
        self.acquire(LockKey { relation_oid, purpose: LockPurpose::Merge })
    }

    /// Takes the delete lock of a relation if nobody holds it.
    pub fn acquire_for_delete(&mut self, relation_oid: u32) -> (token: Option<MergeLock>)
        requires
            old(self).wf(),
        ensures
            final(self).wf(),
            token is Some <==> !old(self).holds(delete_key(relation_oid)),
            token matches Some(lock) ==> lock.spec_key() == delete_key(relation_oid),
            token is Some ==> forall|other: LockKey|
                final(self).holds(other) == (old(self).holds(other) || other == delete_key(
                    relation_oid,
                )),
            token is None ==> *final(self) == *old(self),
    {
        self.acquire(LockKey { relation_oid, purpose: LockPurpose::Delete })
    }

    /// Gives up the lock that `lock` stands for. Every other lock stays as
    /// it is.
    pub fn release(&mut self, lock: MergeLock)
        requires
            old(self).wf(),
        ensures
            final(self).wf(),
            forall|other: LockKey|
                final(self).holds(other) == (old(self).holds(other) && other != lock.spec_key()),
    {
        let key = lock.key;
        let ghost before = self.held@;
        match self.position(key) {
            Some(i) => {
                self.held.remove(i);
                proof {
                    let after = self.held@;
                    assert(after == before.remove(i as int));
                    assert forall|other: LockKey|
                        after.contains(other) == (before.contains(other) && other != key) by {
                        if after.contains(other) {
                            let j = choose|j: int| 0 <= j < after.len() && after[j] == other;
                            if j < i {
                                assert(before[j] == other);
                            } else {
                                assert(before[j + 1] == other);
                            }
                        }
                        if before.contains(other) && other != key {
                            let j = choose|j: int| 0 <= j < before.len() && before[j] == other;
                            if j < i {
                                assert(after[j] == other);
                            } else {
                                assert(after[j - 1] == other);
                            }
                        }
                    }
                }
            },
            None => {},
        }
    }
}

/// The key of a relation's merge lock.
pub open spec fn merge_key(relation_oid: u32) -> LockKey {
    LockKey { relation_oid, purpose: LockPurpose::Merge }
}

/// The key of a relation's delete lock.
pub open spec fn delete_key(relation_oid: u32) -> LockKey {
    LockKey { relation_oid, purpose: LockPurpose::Delete }
}

} // verus!
