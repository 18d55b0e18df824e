//! The list of segment metadata of a relation, and its garbage collection.
//!
//! Every commit appends entries; only garbage collection, under the merge
//! lock, removes any. An entry records when its segment became visible and,
//! once a merge or a delete has replaced the segment, when it stopped being
//! so. The list also knows the snapshots that readers hold open on it: what
//! one of them sees is never removed.

use vstd::prelude::*;
use crate::merge_lock::{merge_key, MergeLock};

verus! {

/// The metadata of one committed segment.
#[derive(Clone, Copy, Debug, PartialEq, Eq)]
pub struct SegmentMetaEntry {
    pub segment_id: u64,
    /// The point in time from which the segment is visible.
    pub xmin: u64,
    /// The point in time from which it is no longer visible, once it has
    /// been replaced.
    pub xmax: Option<u64>,
}

/// Whether a snapshot taken at `snapshot` sees the segment of `entry`.
pub open spec fn visible_at(entry: SegmentMetaEntry, snapshot: u64) -> bool {
    entry.xmin <= snapshot && match entry.xmax {
        Some(xmax) => snapshot < xmax,
        None => true,
    }
}

/// Whether `entry` can be removed when no snapshot older than `horizon` is
/// open: its segment was replaced at or before `horizon`.
pub open spec fn reclaimable(entry: SegmentMetaEntry, horizon: u64) -> bool {
    match entry.xmax {
        Some(xmax) => xmax <= horizon,
        None => false,
    }
}

/// The entries of `entries` that garbage collection at `horizon` keeps, in
/// the order in which they stood.
pub open spec fn surviving(entries: Seq<SegmentMetaEntry>, horizon: u64) -> Seq<SegmentMetaEntry>
    decreases entries.len(),
{
    if entries.len() == 0 {
        Seq::empty()
    } else if reclaimable(entries.last(), horizon) {
        surviving(entries.drop_last(), horizon)
    } else {
        surviving(entries.drop_last(), horizon).push(entries.last())
    }
}

/// The oldest of the open snapshots: the point in time up to which replaced
/// segments can be reclaimed. With no snapshot open it is the end of time.
pub open spec fn horizon_of(snapshots: Seq<u64>) -> u64
    decreases snapshots.len(),
{
    if snapshots.len() == 0 {
        u64::MAX
    } else if snapshots.last() < horizon_of(snapshots.drop_last()) {
        snapshots.last()
    } else {
        horizon_of(snapshots.drop_last())
    }
}

/// Whether every entry of `before` that one of `snapshots` sees is still in
/// `after`.
pub open spec fn keeps_what_is_seen(
    before: Seq<SegmentMetaEntry>,
    snapshots: Seq<u64>,
    after: Seq<SegmentMetaEntry>,
) -> bool {
    forall|entry: SegmentMetaEntry, i: int|
        0 <= i < snapshots.len() && before.contains(entry) && #[trigger] visible_at(
            entry,
            snapshots[i],
        ) ==> after.contains(entry)
}

/// The persisted list of a relation's segment metadata, with the snapshots
/// that are open on it.
pub struct SegmentMetaList {
    relation_oid: u32,
    entries: Vec<SegmentMetaEntry>,
    snapshots: Vec<u64>,
}

impl SegmentMetaList {
    /// The entries, oldest first.
    pub closed spec fn view(self) -> Seq<SegmentMetaEntry> {
        self.entries@
    }

    /// The relation whose segments the list describes.
    pub closed spec fn spec_relation_oid(self) -> u32 {
        self.relation_oid
    }

    /// The points in time at which the open snapshots were taken, in the
    /// order in which they were opened.
    pub closed spec fn open_snapshots(self) -> Seq<u64> {
        self.snapshots@
    }

    /// The list of a relation that has no segment yet.
    pub fn new(relation_oid: u32) -> (list: Self)
        ensures
            list@ == Seq::<SegmentMetaEntry>::empty(),
            list.open_snapshots() == Seq::<u64>::empty(),
            list.spec_relation_oid() == relation_oid,
    {
        SegmentMetaList { relation_oid, entries: Vec::new(), snapshots: Vec::new() }
    }

    /// Records that a reader has opened a snapshot taken at `at`.
    pub fn open_snapshot(&mut self, at: u64)
        ensures
            final(self).open_snapshots() == old(self).open_snapshots().push(at),
            final(self)@ == old(self)@,
            final(self).spec_relation_oid() == old(self).spec_relation_oid(),
    {
        self.snapshots.push(at);
    }

    /// Records that a reader has closed a snapshot taken at `at`: the oldest
    /// record of such a snapshot leaves. Returns whether there was one.
    pub fn close_snapshot(&mut self, at: u64) -> (closed: bool)
        ensures
            closed == old(self).open_snapshots().contains(at),
            closed ==> exists|i: int|
                0 <= i < old(self).open_snapshots().len() && old(self).open_snapshots()[i] == at
                    && final(self).open_snapshots() == old(self).open_snapshots().remove(i),
            !closed ==> final(self).open_snapshots() == old(self).open_snapshots(),
            final(self)@ == old(self)@,
            final(self).spec_relation_oid() == old(self).spec_relation_oid(),
    {
        let mut i: usize = 0;
        while i < self.snapshots.len()
            invariant
                i <= self.snapshots@.len(),
                self.snapshots@ == old(self).snapshots@,
                self.entries@ == old(self).entries@,
                self.relation_oid == old(self).relation_oid,
                forall|j: int| 0 <= j < i ==> self.snapshots@[j] != at,
            decreases self.snapshots@.len() - i,
        {
            if self.snapshots[i] == at {
                self.snapshots.remove(i);
                proof {
                    let before = old(self).open_snapshots();
                    assert(before[i as int] == at && self.open_snapshots() == before.remove(
                        i as int,
                    ));
                }
                return true;
            }
            i += 1;
        }
        false
    }

    /// The oldest of the open snapshots.
    pub fn horizon(&self) -> (horizon: u64)
        ensures
            horizon == horizon_of(self.open_snapshots()),
    {
        let mut horizon: u64 = u64::MAX;
        let mut i: usize = 0;
        while i < self.snapshots.len()
            invariant
                i <= self.snapshots@.len(),
                horizon == horizon_of(self.snapshots@.take(i as int)),
            decreases self.snapshots@.len() - i,
        {
            proof {
                assert(self.snapshots@.take(i + 1).drop_last() == self.snapshots@.take(i as int));
            }
            if self.snapshots[i] < horizon {
                horizon = self.snapshots[i];
            }
            i += 1;
        }
        proof {
            assert(self.snapshots@.take(i as int) == self.snapshots@);
        }
        horizon
    }

    /// The relation whose segments the list describes.
    pub fn relation_oid(&self) -> (oid: u32)
        ensures
            oid == self.spec_relation_oid(),
    {
        self.relation_oid
    }

    /// The entries, oldest first.
    pub fn entries(&self) -> (entries: Vec<SegmentMetaEntry>)
        ensures
            entries@ == self@,
    {
        self.entries.clone()
    }

    /// Appends the entry of a newly committed segment.
    pub fn append(&mut self, entry: SegmentMetaEntry)
        ensures
            final(self)@ == old(self)@.push(entry),
            final(self).open_snapshots() == old(self).open_snapshots(),
            final(self).spec_relation_oid() == old(self).spec_relation_oid(),
    {
        self.entries.push(entry);
    }

    /// Removes every entry whose segment was replaced at or before the
    /// oldest open snapshot, and keeps the others in their order: no entry
    /// that an open snapshot sees is removed. The caller shows the merge lock
    /// of the list's relation. Returns how many entries were removed.
    pub fn garbage_collect(&mut self, lock: &MergeLock) -> (removed: usize)
        requires
            lock.spec_key() == merge_key(old(self).spec_relation_oid()),
        ensures
            final(self)@ == surviving(old(self)@, horizon_of(old(self).open_snapshots())),
            keeps_what_is_seen(old(self)@, old(self).open_snapshots(), final(self)@),
            final(self).open_snapshots() == old(self).open_snapshots(),
            final(self).spec_relation_oid() == old(self).spec_relation_oid(),
            removed == old(self)@.len() - final(self)@.len(),
    {
        let horizon = self.horizon();
        proof {
            lemma_gc_keeps_open_snapshots(self.entries@, self.snapshots@);
        }
        let mut kept: Vec<SegmentMetaEntry> = Vec::new();
        let mut i: usize = 0;
        while i < self.entries.len()
            invariant
                i <= self.entries@.len(),
                self.entries@ == old(self).entries@,
                self.relation_oid == old(self).relation_oid,
                self.snapshots@ == old(self).snapshots@,
                kept@ == surviving(self.entries@.take(i as int), horizon),
                kept@.len() <= i,
            decreases self.entries@.len() - i,
        {
            let entry = self.entries[i];
            proof {
                let next = self.entries@.take(i + 1);
                assert(next.drop_last() == self.entries@.take(i as int));
                assert(next.last() == entry);
            }
            let gone = match entry.xmax {
                Some(xmax) => xmax <= horizon,
                None => false,
            };
            if !gone {
                kept.push(entry);
            }
            i += 1;
        }
        proof {
            assert(self.entries@.take(i as int) == self.entries@);
        }
        let removed = self.entries.len() - kept.len();
        self.entries = kept;
        removed
    }
}

/// Garbage collection keeps exactly the entries that are not reclaimable: it
/// invents none and drops no other.
pub proof fn lemma_surviving_contains(
    entries: Seq<SegmentMetaEntry>,
    horizon: u64,
    entry: SegmentMetaEntry,
)
    ensures
        surviving(entries, horizon).contains(entry) <==> entries.contains(entry) && !reclaimable(
            entry,
            horizon,
        ),
    decreases entries.len(),
{
    if entries.len() > 0 {
        let rest = entries.drop_last();
        let last = entries.last();
        lemma_surviving_contains(rest, horizon, entry);
        let kept_rest = surviving(rest, horizon);
        let kept = surviving(entries, horizon);
        if entries.contains(entry) {
            let i = choose|i: int| 0 <= i < entries.len() && entries[i] == entry;
            if i < rest.len() {
                assert(rest[i] == entry);
            }
        }
        if rest.contains(entry) {
            let i = choose|i: int| 0 <= i < rest.len() && rest[i] == entry;
            assert(entries[i] == entry);
        }
        assert(entries[entries.len() - 1] == last);
        if !reclaimable(last, horizon) {
            assert(kept == kept_rest.push(last));
            assert(kept[kept_rest.len() as int] == last);
            if kept_rest.contains(entry) {
                let i = choose|i: int| 0 <= i < kept_rest.len() && kept_rest[i] == entry;
                assert(kept[i] == entry);
            }
            if kept.contains(entry) {
                let i = choose|i: int| 0 <= i < kept.len() && kept[i] == entry;
                if i < kept_rest.len() {
                    assert(kept_rest[i] == entry);
                }
            }
        }
    }
}

/// Garbage collection at `horizon` keeps every entry that a snapshot taken at
/// or after `horizon` sees: a reader that was open when the collection began
/// loses none of its segments.
pub proof fn lemma_gc_keeps_what_snapshots_see(
    entries: Seq<SegmentMetaEntry>,
    horizon: u64,
    snapshot: u64,
    entry: SegmentMetaEntry,
)
    requires
        horizon <= snapshot,
        entries.contains(entry),
        visible_at(entry, snapshot),
    ensures
        surviving(entries, horizon).contains(entry),
{
    lemma_surviving_contains(entries, horizon, entry);
}

/// The horizon is not later than any open snapshot.
pub proof fn lemma_horizon_is_oldest(snapshots: Seq<u64>, i: int)
    requires
        0 <= i < snapshots.len(),
    ensures
        horizon_of(snapshots) <= snapshots[i],
    decreases snapshots.len(),
{
    if i < snapshots.len() - 1 {
        lemma_horizon_is_oldest(snapshots.drop_last(), i);
    }
}

/// Garbage collection at the horizon of the open snapshots removes no entry
/// that one of them sees.
pub proof fn lemma_gc_keeps_open_snapshots(entries: Seq<SegmentMetaEntry>, snapshots: Seq<u64>)
    ensures
        keeps_what_is_seen(entries, snapshots, surviving(entries, horizon_of(snapshots))),
{
    assert forall|entry: SegmentMetaEntry, i: int|
        0 <= i < snapshots.len() && entries.contains(entry) && #[trigger] visible_at(
            entry,
            snapshots[i],
        ) implies surviving(entries, horizon_of(snapshots)).contains(entry) by {
        lemma_horizon_is_oldest(snapshots, i);
        lemma_gc_keeps_what_snapshots_see(entries, horizon_of(snapshots), snapshots[i], entry);
    }
}

} // verus!
