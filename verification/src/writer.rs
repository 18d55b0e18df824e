//! The writer session: it batches inserts and deletes, and decides what is
//! handed to the engine, and when.
//!
//! A session does no storage work itself. Each operation returns what the
//! caller has to hand to the engine next: a batch to run, or a plan for the
//! commit.

use vstd::prelude::*;
use crate::engine::{document_add_u64, document_with_u64, IndexTerm};
use crate::merge_lock::{merge_key, LockKey, MergeLock, MergeLockTable};
use crate::rowid::Ctid;
use crate::segment_metas::{horizon_of, keeps_what_is_seen, surviving, SegmentMetaList};

verus! {

/// How many pending operations a session collects before it hands the whole
/// batch to the engine.
pub const MAX_INSERT_QUEUE_SIZE: usize = 1000;

/// The capacity of the channel on which storage jobs wait for the worker.
pub const CHANNEL_QUEUE_LEN: usize = 1000;

/// An operation that waits in a session's queue.
pub enum PendingOp {
    /// Index the document, which already holds its row identifier, for the
    /// row at the given location.
    Add(tantivy::TantivyDocument, Ctid),
    /// Remove every document that holds the term.
    Delete(IndexTerm),
}

/// Which of the two storage directories a session works on.
#[derive(Clone, Copy, Debug, PartialEq, Eq, Structural)]
pub enum BlockDirectoryType {
    /// Live block storage, for building and writing.
    Mutable,
    /// A fixed view of the segment metadata, for read-only scans.
    Snapshot,
}

/// The engine's merge strategy.
#[derive(Clone, Copy, Debug, PartialEq, Eq, Structural)]
pub enum MergePolicyKind {
    /// Never merge segments.
    NoMerge,
    /// Merge segments in the background as the engine sees fit.
    Automatic,
}

/// What a session may use of the machine, and whether it may merge.
#[derive(Clone, Copy, Debug, PartialEq, Eq, Structural)]
pub struct WriterResources {
    pub parallelism: usize,
    pub memory_budget: usize,
    pub wants_merge: bool,
    pub merge_policy: MergePolicyKind,
}

/// How the engine's index and writer are to be set up for a session.
#[derive(Clone, Copy, Debug, PartialEq, Eq, Structural)]
pub struct EngineSetup {
    /// Create a new index (`true`) or open the one that is there.
    pub create: bool,
    pub directory: BlockDirectoryType,
    pub channel_capacity: usize,
    pub parallelism: usize,
    pub memory_budget: usize,
    pub merge_policy: MergePolicyKind,
    /// Whether a new index compresses its document store on a thread of its
    /// own. `None` where an index is opened: it keeps its settings.
    pub docstore_compress_dedicated_thread: Option<bool>,
}

/// What the engine is to do for a commit: `batch` is what it runs, and
/// `next_call` says, call by call, what comes next.
pub struct CommitPlan {
    pub batch: Vec<PendingOp>,
    pub should_merge: bool,
}

/// One call of the engine during a commit.
#[derive(Clone, Copy, Debug, PartialEq, Eq, Structural)]
pub enum EngineCall {
    /// Run the plan's batch, in one call.
    Run,
    /// Install the policy that never merges.
    InstallNoMergePolicy,
    /// Commit.
    Commit,
    /// Wait until every background merge has ended.
    WaitForMerges,
}

/// The engine's calls for a commit, in order. A commit that merges returns
/// only when the merges it set off have ended; one that does not merge
/// forbids merging before it commits.
pub open spec fn commit_calls(should_merge: bool) -> Seq<EngineCall> {
    if should_merge {
        seq![EngineCall::Run, EngineCall::Commit, EngineCall::WaitForMerges]
    } else {
        seq![EngineCall::Run, EngineCall::InstallNoMergePolicy, EngineCall::Commit]
    }
}

impl CommitPlan {
    /// The engine's next call, after `done` calls of this commit have been
    /// made and the last of them has failed or not. A failure ends the
    /// commit at once: no later call is made. Otherwise the calls follow
    /// `commit_calls`, and the commit is over when all of them are done.
    pub fn next_call(&self, done: usize, last_failed: bool) -> (next: Option<EngineCall>)
        ensures
            next == (if last_failed || done >= 3 {
                None::<EngineCall>
            } else {
                Some(commit_calls(self.should_merge)[done as int])
            }),
    {
        if last_failed || done >= 3 {
            None
        } else if done == 0 {
            Some(EngineCall::Run)
        } else if self.should_merge {
            if done == 1 {
                Some(EngineCall::Commit)
            } else {
                Some(EngineCall::WaitForMerges)
            }
        } else {
            if done == 1 {
                Some(EngineCall::InstallNoMergePolicy)
            } else {
                Some(EngineCall::Commit)
            }
        }
    }
}

/// A commit that merges is over only after the wait for the background
/// merges, which comes after the engine's commit; a commit that does not
/// merge installs the policy that never merges before the engine commits,
/// and never waits.
pub proof fn lemma_commit_order(should_merge: bool)
    ensures
        commit_calls(should_merge).len() == 3,
        commit_calls(should_merge)[0] == EngineCall::Run,
        should_merge ==> commit_calls(should_merge)[1] == EngineCall::Commit && commit_calls(
            should_merge,
        )[2] == EngineCall::WaitForMerges,
        !should_merge ==> commit_calls(should_merge)[1] == EngineCall::InstallNoMergePolicy
            && commit_calls(should_merge)[2] == EngineCall::Commit,
        !should_merge ==> !commit_calls(should_merge).contains(EngineCall::WaitForMerges),
{
}

/// A commit together with the merge lock that was taken for it. Where the
/// lock is there, the commit merges, the segment metadata is garbage
/// collected after it, and then the lock is released. Where it is not, the
/// commit does not merge and nothing else follows.
pub struct MaintenancePlan {
    pub commit: CommitPlan,
    pub merge_lock: Option<MergeLock>,
}

/// What a vacuum does next.
pub enum VacuumStep {
    /// The merge lock was free and is now held: commit, collect, release.
    Commit(MaintenancePlan),
    /// Another session holds the merge lock. The session is handed back
    /// unchanged, to call `vacuum` again once the lock has been released.
    Wait(SearchIndexWriter),
}

/// The queue and the batches handed out after `op` has joined `queue`:
/// the queue grows by `op`, and where it thereby reaches the threshold it
/// leaves as one batch.
pub open spec fn enqueue(queue: Seq<PendingOp>, op: PendingOp) -> (Seq<Seq<PendingOp>>, Seq<
    PendingOp,
>) {
    let grown = queue.push(op);
    if grown.len() >= MAX_INSERT_QUEUE_SIZE {
        (seq![grown], Seq::empty())
    } else {
        (Seq::empty(), grown)
    }
}

/// What one operation hands out, as a sequence of batches: the batch, or
/// nothing.
pub open spec fn handed_out(flushed: Option<Vec<PendingOp>>) -> Seq<Seq<PendingOp>> {
    match flushed {
        Some(batch) => seq![batch@],
        None => Seq::empty(),
    }
}

/// The batches handed out, in order, and the queue that is left after the
/// operations of `ops` have joined `queue` one by one.
pub open spec fn enqueue_all(queue: Seq<PendingOp>, ops: Seq<PendingOp>) -> (
    Seq<Seq<PendingOp>>,
    Seq<PendingOp>,
)
    decreases ops.len(),
{
    if ops.len() == 0 {
        (Seq::empty(), queue)
    } else {
        let before = enqueue_all(queue, ops.drop_last());
        let step = enqueue(before.1, ops.last());
        (before.0 + step.0, step.1)
    }
}

/// All operations of `batches`, in order.
pub open spec fn flattened(batches: Seq<Seq<PendingOp>>) -> Seq<PendingOp>
    decreases batches.len(),
{
    if batches.len() == 0 {
        Seq::empty()
    } else {
        flattened(batches.drop_last()) + batches.last()
    }
}

/// A writer session on one relation.
pub struct SearchIndexWriter {
    ctid_field: tantivy::schema::Field,
    wants_merge: bool,
    insert_queue: Vec<PendingOp>,
    relation_oid: u32,
}

impl SearchIndexWriter {
    /// The session's invariant: between two operations its queue holds less
    /// than a full batch.
    pub closed spec fn wf(self) -> bool {
        self.insert_queue@.len() < MAX_INSERT_QUEUE_SIZE
    }

    /// The operations that wait in the queue, oldest first.
    pub closed spec fn pending(self) -> Seq<PendingOp> {
        self.insert_queue@
    }

    /// The field that holds a document's row identifier.
    pub closed spec fn spec_ctid_field(self) -> tantivy::schema::Field {
        self.ctid_field
    }

    /// Whether this session may trigger merges.
    pub closed spec fn spec_wants_merge(self) -> bool {
        self.wants_merge
    }

    /// The relation that this session writes to.
    pub closed spec fn spec_relation_oid(self) -> u32 {
        self.relation_oid
    }

    /// Starts a session on the existing index of a relation, with an empty
    /// queue, and says how the engine is to be set up for it.
    pub fn open(
        relation_oid: u32,
        ctid_field: tantivy::schema::Field,
        directory_type: BlockDirectoryType,
        resources: WriterResources,
    ) -> (opened: (Self, EngineSetup))
        ensures
            opened.0.wf(),
            opened.0.pending() == Seq::<PendingOp>::empty(),
            opened.0.spec_ctid_field() == ctid_field,
            opened.0.spec_wants_merge() == resources.wants_merge,
            opened.0.spec_relation_oid() == relation_oid,
            opened.1 == (EngineSetup {
                create: false,
                directory: directory_type,
                channel_capacity: CHANNEL_QUEUE_LEN,
                parallelism: resources.parallelism,
                memory_budget: resources.memory_budget,
                merge_policy: resources.merge_policy,
                docstore_compress_dedicated_thread: None,
            }),
    {
        let setup = EngineSetup {
            create: false,
            directory: directory_type,
            channel_capacity: CHANNEL_QUEUE_LEN,
            parallelism: resources.parallelism,
            memory_budget: resources.memory_budget,
            merge_policy: resources.merge_policy,
            docstore_compress_dedicated_thread: None,
        };
        let writer = SearchIndexWriter {
            ctid_field,
            wants_merge: resources.wants_merge,
            insert_queue: Vec::with_capacity(MAX_INSERT_QUEUE_SIZE),
            relation_oid,
        };
        (writer, setup)
    }

    /// Starts the session that builds a new index for a relation: on
    /// live block storage, and with a document store that is
    /// compressed on the indexing threads themselves.
    pub fn create_index(
        relation_oid: u32,
        ctid_field: tantivy::schema::Field,
        resources: WriterResources,
    ) -> (created: (Self, EngineSetup))
        ensures
            created.0.wf(),
            created.0.pending() == Seq::<PendingOp>::empty(),
            created.0.spec_ctid_field() == ctid_field,
            created.0.spec_wants_merge() == resources.wants_merge,
            created.0.spec_relation_oid() == relation_oid,
            created.1 == (EngineSetup {
                create: true,
                directory: BlockDirectoryType::Mutable,
                channel_capacity: CHANNEL_QUEUE_LEN,
                parallelism: resources.parallelism,
                memory_budget: resources.memory_budget,
                merge_policy: resources.merge_policy,
                docstore_compress_dedicated_thread: Some(false),
            }),
    {
        let setup = EngineSetup {
            create: true,
            directory: BlockDirectoryType::Mutable,
            channel_capacity: CHANNEL_QUEUE_LEN,
            parallelism: resources.parallelism,
            memory_budget: resources.memory_budget,
            merge_policy: resources.merge_policy,
            docstore_compress_dedicated_thread: Some(false),
        };
        let writer = SearchIndexWriter {
            ctid_field,
            wants_merge: resources.wants_merge,
            insert_queue: Vec::with_capacity(MAX_INSERT_QUEUE_SIZE),
            relation_oid,
        };
        (writer, setup)
    }

    /// The field that holds a document's row identifier, for callers that
    /// build terms themselves.
    pub fn get_ctid_field(&self) -> (field: tantivy::schema::Field)
        ensures
            field == self.spec_ctid_field(),
    {
        self.ctid_field
    }

    /// Whether this session may trigger merges.
    pub fn wants_merge(&self) -> (wants: bool)
        ensures
            wants == self.spec_wants_merge(),
    {
        self.wants_merge
    }

    /// The relation that this session writes to.
    pub fn relation_oid(&self) -> (oid: u32)
        ensures
            oid == self.spec_relation_oid(),
    {
        self.relation_oid
    }

    /// How many operations wait in the queue.
    pub fn pending_len(&self) -> (len: usize)
        requires
            self.wf(),
        ensures
            len == self.pending().len(),
            len < MAX_INSERT_QUEUE_SIZE,
    {
        self.insert_queue.len()
    }

    /// Appends `op` to the queue and hands the whole batch out where the
    /// queue has thereby reached the threshold.
    fn push_op(&mut self, op: PendingOp) -> (flushed: Option<Vec<PendingOp>>)
        requires
            old(self).wf(),
        ensures
            final(self).wf(),
            flushed is Some <==> old(self).pending().len() + 1 >= MAX_INSERT_QUEUE_SIZE,
            flushed matches Some(batch) ==> batch@ == old(self).pending().push(op)
                && final(self).pending() == Seq::<PendingOp>::empty(),
            flushed is None ==> final(self).pending() == old(self).pending().push(op),
            handed_out(flushed) == enqueue(old(self).pending(), op).0,
            final(self).pending() == enqueue(old(self).pending(), op).1,
            final(self).spec_ctid_field() == old(self).spec_ctid_field(),
            final(self).spec_wants_merge() == old(self).spec_wants_merge(),
            final(self).spec_relation_oid() == old(self).spec_relation_oid(),
    {
        self.insert_queue.push(op);
        if self.insert_queue.len() >= MAX_INSERT_QUEUE_SIZE {
            let batch = self.drain_insert_queue();
            Some(batch)
        } else {
            None
        }
    }

    /// Queues the removal of every document that holds `term`. Returns the
    /// batch that is to be run by the engine now, if the queue has reached
    /// the threshold.
    pub fn delete_term(&mut self, term: IndexTerm) -> (flushed: Option<Vec<PendingOp>>)
        requires
            old(self).wf(),
        ensures
            final(self).wf(),
            flushed is Some <==> old(self).pending().len() + 1 >= MAX_INSERT_QUEUE_SIZE,
            flushed matches Some(batch) ==> batch@ == old(self).pending().push(PendingOp::Delete(term))
                && final(self).pending() == Seq::<PendingOp>::empty(),
            flushed is None ==> final(self).pending() == old(self).pending().push(PendingOp::Delete(term)),
            handed_out(flushed) == enqueue(old(self).pending(), PendingOp::Delete(term)).0,
            final(self).pending() == enqueue(old(self).pending(), PendingOp::Delete(term)).1,
            final(self).spec_ctid_field() == old(self).spec_ctid_field(),
            final(self).spec_wants_merge() == old(self).spec_wants_merge(),
            final(self).spec_relation_oid() == old(self).spec_relation_oid(),
    {
        self.push_op(PendingOp::Delete(term))
    }

    /// The operation that `insert` queues for `document` and `ctid`: the
    /// document with the packed row identifier added under the row-identifier
    /// field.
    pub open spec fn add_op(self, document: tantivy::TantivyDocument, ctid: Ctid) -> PendingOp {
        PendingOp::Add(
            document_with_u64(document, self.spec_ctid_field(), ctid.spec_value()),
            ctid,
        )
    }

    /// Writes the row identifier into `document` and queues it for indexing.
    /// Returns the batch that is to be run by the engine now, if the queue
    /// has reached the threshold.
    pub fn insert(&mut self, document: tantivy::TantivyDocument, ctid: Ctid) -> (flushed: Option<
        Vec<PendingOp>,
    >)
        requires
            old(self).wf(),
        ensures
            final(self).wf(),
            flushed is Some <==> old(self).pending().len() + 1 >= MAX_INSERT_QUEUE_SIZE,
            flushed matches Some(batch) ==> batch@ == old(self).pending().push(old(self).add_op(document, ctid))
                && final(self).pending() == Seq::<PendingOp>::empty(),
            flushed is None ==> final(self).pending() == old(self).pending().push(old(self).add_op(document, ctid)),
            handed_out(flushed) == enqueue(old(self).pending(), old(self).add_op(document, ctid)).0,
            final(self).pending() == enqueue(old(self).pending(), old(self).add_op(document, ctid)).1,
            final(self).spec_ctid_field() == old(self).spec_ctid_field(),
            final(self).spec_wants_merge() == old(self).spec_wants_merge(),
            final(self).spec_relation_oid() == old(self).spec_relation_oid(),
    {
        let document = document_add_u64(document, self.ctid_field, ctid.value());
        self.push_op(PendingOp::Add(document, ctid))
    }

    /// Takes the whole queue, for one call of the engine, and leaves it
    /// empty.
    fn drain_insert_queue(&mut self) -> (batch: Vec<PendingOp>)
        ensures
            batch@ == old(self).insert_queue@,
            final(self).insert_queue@ == Seq::<PendingOp>::empty(),
            final(self).ctid_field == old(self).ctid_field,
            final(self).wants_merge == old(self).wants_merge,
            final(self).relation_oid == old(self).relation_oid,
    {
        let mut batch: Vec<PendingOp> = Vec::new();
        std::mem::swap(&mut self.insert_queue, &mut batch);
        batch
    }

    /// Ends the session. The plan hands the whole queue to the engine in one
    /// batch, which may be empty, and says whether the commit merges.
    pub fn commit(self, should_merge: bool) -> (plan: CommitPlan)
        ensures
            plan.batch@ == self.pending(),
            plan.should_merge == should_merge,
    {
        let mut this = self;
        let batch = this.drain_insert_queue();
        CommitPlan { batch, should_merge }
    }

    /// Ends the session after a run of inserts. A session that may merge
    /// tries the merge lock of its relation, without waiting. With the lock
    /// the commit merges and garbage collection follows; without it, or for
    /// a session that may not merge, the commit does not merge and the locks
    /// stay as they were.
    pub fn commit_inserts(self, locks: &mut MergeLockTable) -> (plan: MaintenancePlan)
        requires
            old(locks).wf(),
        ensures
            final(locks).wf(),
            plan.commit.batch@ == self.pending(),
            plan.merge_lock is Some <==> self.spec_wants_merge() && !old(locks).holds(
                merge_key(self.spec_relation_oid()),
            ),
            plan.commit.should_merge == plan.merge_lock is Some,
            plan.merge_lock matches Some(lock) ==> lock.spec_key() == merge_key(
                self.spec_relation_oid(),
            ),
            plan.merge_lock is Some ==> forall|other: LockKey|
                final(locks).holds(other) == (old(locks).holds(other) || other == merge_key(
                    self.spec_relation_oid(),
                )),
            plan.merge_lock is None ==> *final(locks) == *old(locks),
    {
        let merge_lock = if self.wants_merge {
            locks.acquire_for_merge(self.relation_oid)
        } else {
            None
        };
        let commit = self.commit(merge_lock.is_some());
        MaintenancePlan { commit, merge_lock }
    }

    /// Ends a maintenance session, whose queue must be empty. Whether or not
    /// the session may merge on its own, it needs the merge lock of its
    /// relation: where the lock is free it is taken and the commit merges;
    /// where it is held the session is handed back to wait for it.
    pub fn vacuum(self, locks: &mut MergeLockTable) -> (step: VacuumStep)
        requires
            self.pending().len() == 0,
            old(locks).wf(),
        ensures
            final(locks).wf(),
            match step {
                VacuumStep::Commit(plan) => {
                    &&& !old(locks).holds(merge_key(self.spec_relation_oid()))
                    &&& plan.commit.batch@ == Seq::<PendingOp>::empty()
                    &&& plan.commit.should_merge
                    &&& plan.merge_lock matches Some(lock) && lock.spec_key() == merge_key(
                        self.spec_relation_oid(),
                    )
                    &&& forall|other: LockKey|
                        final(locks).holds(other) == (old(locks).holds(other) || other
                            == merge_key(self.spec_relation_oid()))
                },
                VacuumStep::Wait(writer) => {
                    &&& old(locks).holds(merge_key(self.spec_relation_oid()))
                    &&& writer == self
                    &&& *final(locks) == *old(locks)
                },
            },
    {
        match locks.acquire_for_merge(self.relation_oid) {
            Some(lock) => {
                let commit = self.commit(true);
                VacuumStep::Commit(MaintenancePlan { commit, merge_lock: Some(lock) })
            },
            None => VacuumStep::Wait(self),
        }
    }
}

/// Reclaims the obsolete entries of a relation's segment metadata, under the
/// relation's merge lock. No entry that an open snapshot sees is removed.
pub fn garbage_collect_metas(lock: &MergeLock, metas: &mut SegmentMetaList) -> (removed: usize)
    requires
        lock.spec_key() == merge_key(old(metas).spec_relation_oid()),
    ensures
        final(metas)@ == surviving(old(metas)@, horizon_of(old(metas).open_snapshots())),
        keeps_what_is_seen(old(metas)@, old(metas).open_snapshots(), final(metas)@),
        final(metas).open_snapshots() == old(metas).open_snapshots(),
        final(metas).spec_relation_oid() == old(metas).spec_relation_oid(),
        removed == old(metas)@.len() - final(metas)@.len(),
{
    metas.garbage_collect(lock)
}

/// What follows a commit of a `MaintenancePlan` that the engine has made.
/// With the merge lock the segment metadata is garbage collected and the
/// lock is released; without it neither the metadata nor the locks change.
/// Either way no entry that an open snapshot sees is removed. Returns how
/// many entries were removed.
pub fn finish_maintenance(
    merge_lock: Option<MergeLock>,
    locks: &mut MergeLockTable,
    metas: &mut SegmentMetaList,
) -> (removed: usize)
    requires
        old(locks).wf(),
        merge_lock matches Some(lock) ==> lock.spec_key() == merge_key(
            old(metas).spec_relation_oid(),
        ),
    ensures
        final(locks).wf(),
        final(metas).spec_relation_oid() == old(metas).spec_relation_oid(),
        final(metas).open_snapshots() == old(metas).open_snapshots(),
        keeps_what_is_seen(old(metas)@, old(metas).open_snapshots(), final(metas)@),
        removed == old(metas)@.len() - final(metas)@.len(),
        match merge_lock {
            Some(lock) => {
                &&& final(metas)@ == surviving(
                    old(metas)@,
                    horizon_of(old(metas).open_snapshots()),
                )
                &&& forall|other: LockKey|
                    final(locks).holds(other) == (old(locks).holds(other) && other
                        != lock.spec_key())
            },
            None => {
                &&& final(metas)@ == old(metas)@
                &&& *final(locks) == *old(locks)
            },
        },
{
    match merge_lock {
        Some(lock) => {
            let removed = garbage_collect_metas(&lock, metas);
            locks.release(lock);
            removed
        },
        None => 0,
    }
}

/// What follows a commit of a `MaintenancePlan` that has failed: the merge
/// lock, where it was taken, is released, and nothing is collected.
pub fn abandon_maintenance(merge_lock: Option<MergeLock>, locks: &mut MergeLockTable)
    requires
        old(locks).wf(),
    ensures
        final(locks).wf(),
        match merge_lock {
            Some(lock) => forall|other: LockKey|
                final(locks).holds(other) == (old(locks).holds(other) && other
                    != lock.spec_key()),
            None => *final(locks) == *old(locks),
        },
{
    match merge_lock {
        Some(lock) => {
            locks.release(lock);
        },
        None => {},
    }
}

/// What follows the engine's commit of a `MaintenancePlan`, whatever came of
/// it. After a commit that was made, the metadata is collected under the
/// merge lock; after one that failed, it is left alone. The lock, where it
/// was taken, is released either way, and no entry that an open snapshot
/// sees is ever removed. Returns how many entries were removed.
pub fn conclude_maintenance(
    committed: bool,
    merge_lock: Option<MergeLock>,
    locks: &mut MergeLockTable,
    metas: &mut SegmentMetaList,
) -> (removed: usize)
    requires
        old(locks).wf(),
        merge_lock matches Some(lock) ==> lock.spec_key() == merge_key(
            old(metas).spec_relation_oid(),
        ),
    ensures
        final(locks).wf(),
        final(metas).spec_relation_oid() == old(metas).spec_relation_oid(),
        final(metas).open_snapshots() == old(metas).open_snapshots(),
        keeps_what_is_seen(old(metas)@, old(metas).open_snapshots(), final(metas)@),
        removed == old(metas)@.len() - final(metas)@.len(),
        final(metas)@ == (if committed && merge_lock is Some {
            surviving(old(metas)@, horizon_of(old(metas).open_snapshots()))
        } else {
            old(metas)@
        }),
        match merge_lock {
            Some(lock) => forall|other: LockKey|
                final(locks).holds(other) == (old(locks).holds(other) && other
                    != lock.spec_key()),
            None => *final(locks) == *old(locks),
        },
{
    if committed {
        finish_maintenance(merge_lock, locks, metas)
    } else {
        abandon_maintenance(merge_lock, locks);
        0
    }
}

/// As long as the queue stays below the threshold, no batch is handed out:
/// every operation waits in the queue, in order, until a commit takes it.
pub proof fn lemma_no_flush_below_threshold(queue: Seq<PendingOp>, ops: Seq<PendingOp>)
    requires
        queue.len() + ops.len() < MAX_INSERT_QUEUE_SIZE,
    ensures
        enqueue_all(queue, ops).0 == Seq::<Seq<PendingOp>>::empty(),
        enqueue_all(queue, ops).1 == queue + ops,
    decreases ops.len(),
{
    if ops.len() == 0 {
        assert(queue + ops =~= queue);
    } else {
        lemma_no_flush_below_threshold(queue, ops.drop_last());
        let before = enqueue_all(queue, ops.drop_last());
        assert(before.1.push(ops.last()) =~= queue + ops);
        assert(before.0 + Seq::<Seq<PendingOp>>::empty() =~= Seq::<Seq<PendingOp>>::empty());
    }
}

/// Queueing loses and reorders nothing: the batches handed out, followed by
/// the queue that is left, are the old queue followed by the new operations.
/// Every batch holds exactly a threshold's worth of operations, and the queue
/// that is left holds less.
pub proof fn lemma_enqueue_all_keeps_everything(queue: Seq<PendingOp>, ops: Seq<PendingOp>)
    requires
        queue.len() < MAX_INSERT_QUEUE_SIZE,
    ensures
        flattened(enqueue_all(queue, ops).0) + enqueue_all(queue, ops).1 == queue + ops,
        enqueue_all(queue, ops).1.len() < MAX_INSERT_QUEUE_SIZE,
        forall|i: int|
            0 <= i < enqueue_all(queue, ops).0.len() ==> (#[trigger] enqueue_all(queue, ops).0[i]).len()
                == MAX_INSERT_QUEUE_SIZE,
        enqueue_all(queue, ops).0.len() == (queue.len() + ops.len()) / (
        MAX_INSERT_QUEUE_SIZE as nat),
        enqueue_all(queue, ops).1.len() == (queue.len() + ops.len()) % (
        MAX_INSERT_QUEUE_SIZE as nat),
    decreases ops.len(),
{
    if ops.len() == 0 {
        assert(queue + ops =~= queue);
        assert(flattened(Seq::<Seq<PendingOp>>::empty()) + queue =~= queue);
    } else {
        lemma_enqueue_all_keeps_everything(queue, ops.drop_last());
        let before = enqueue_all(queue, ops.drop_last());
        let grown = before.1.push(ops.last());
        let after = enqueue_all(queue, ops);
        assert(queue + ops =~= (queue + ops.drop_last()).push(ops.last()));
        if grown.len() >= MAX_INSERT_QUEUE_SIZE {
            assert(after.0 =~= before.0.push(grown));
            assert(after.0.drop_last() =~= before.0);
            assert(flattened(after.0) == flattened(before.0) + grown);
            assert(flattened(after.0) + after.1 =~= (flattened(before.0) + before.1).push(
                ops.last(),
            ));
        } else {
            assert(after.0 =~= before.0);
            assert(flattened(after.0) + after.1 =~= (flattened(before.0) + before.1).push(
                ops.last(),
            ));
        }
    }
}

} // verus!
