//! The bulk-delete scan of a vacuum: every row identifier in the index is
//! shown to the host, and the rows that the host calls dead are deleted.

use vstd::prelude::*;
use crate::engine::{bytes_term, IndexTerm};
use crate::merge_lock::{delete_key, LockKey, MergeLock, MergeLockTable};
use crate::rowid::{be_value, block_of, offset_of, u64_from_be_bytes, u64_to_item_pointer, Ctid};
use crate::writer::{
    enqueue_all, BlockDirectoryType, CommitPlan, EngineSetup, PendingOp, SearchIndexWriter,
    WriterResources, CHANNEL_QUEUE_LEN,
};

verus! {

/// One posting of the row-identifier field: the bytes of its term as the
/// segment stores them, and the row that the posting stands for.
pub struct RowPosting {
    pub term_bytes: Vec<u8>,
    pub ctid: Ctid,
}

impl RowPosting {
    /// The posting of a term of the row-identifier field, read from the
    /// term's bytes as a segment stores them: the packed row identifier in
    /// eight bytes, the most significant first. Bytes of any other length
    /// are no row identifier.
    pub fn from_term_key(term_bytes: Vec<u8>) -> (posting: Option<RowPosting>)
        ensures
            posting is Some <==> term_bytes@.len() == 8,
            posting matches Some(row) ==> {
                &&& row.term_bytes@ == term_bytes@
                &&& row.ctid.block == block_of(be_value(term_bytes@))
                &&& row.ctid.offset == offset_of(be_value(term_bytes@))
            },
    {
        match u64_from_be_bytes(&term_bytes) {
            Some(value) => Some(RowPosting { term_bytes, ctid: u64_to_item_pointer(value) }),
            None => None,
        }
    }
}

/// The host's running statistics of a vacuum.
#[derive(Clone, Copy, Debug, PartialEq, Eq, Structural)]
pub struct BulkDeleteStats {
    pub pages_deleted: u32,
}

/// What a scan that deleted rows hands to the cleanup that follows it: the
/// statistics, and the buffer on which the cleanup lock is held until then.
#[derive(Clone, Copy, Debug, PartialEq, Eq, Structural)]
pub struct BulkDeleteData {
    pub stats: BulkDeleteStats,
    pub cleanup_lock: i32,
}

impl BulkDeleteData {
    /// Puts the statistics and the locked buffer together.
    pub fn new(stats: BulkDeleteStats, cleanup_lock: i32) -> (data: Self)
        ensures
            data.stats == stats,
            data.cleanup_lock == cleanup_lock,
    {
        BulkDeleteData { stats, cleanup_lock }
    }
}

/// Everything that a bulk-delete scan decided.
pub struct BulkDeleteOutcome {
    /// The relation's delete lock, if it was free; it is released when the
    /// work below is done.
    pub delete_lock: Option<MergeLock>,
    /// How the engine is opened for the scan's writer.
    pub setup: EngineSetup,
    /// For each posting, whether the host called its row dead.
    pub dead: Vec<bool>,
    /// The batches that filled up during the scan, in the order in which the
    /// engine is to run them.
    pub flushed: Vec<Vec<PendingOp>>,
    /// The commit that ends the scan. It never merges.
    pub commit: CommitPlan,
    pub stats: BulkDeleteStats,
    pub rows_examined: usize,
    pub rows_removed: usize,
    /// Whether the cleanup lock is to be taken: a lock that is only given
    /// once no reader holds a reference into the index.
    pub needs_cleanup_lock: bool,
}

/// The deletes that a scan queues, in order: one for each posting that is
/// marked dead, of the term with that posting's bytes.
pub open spec fn dead_terms(
    field: tantivy::schema::Field,
    postings: Seq<RowPosting>,
    dead: Seq<bool>,
) -> Seq<PendingOp>
    decreases postings.len(),
{
    if postings.len() == 0 {
        Seq::empty()
    } else if dead[postings.len() - 1] {
        dead_terms(field, postings.drop_last(), dead).push(
            PendingOp::Delete(bytes_term(field, postings.last().term_bytes@)),
        )
    } else {
        dead_terms(field, postings.drop_last(), dead)
    }
}

/// The operations of each batch.
pub open spec fn batches_view(batches: Seq<Vec<PendingOp>>) -> Seq<Seq<PendingOp>> {
    Seq::new(batches.len(), |i: int| batches[i]@)
}

/// Shows the packed row identifier of every posting to `callback`, in order
/// and once each, and records its answers.
pub fn find_dead<F: Fn(u64) -> bool>(postings: &Vec<RowPosting>, callback: F) -> (dead: Vec<bool>)
    requires
        forall|i: int|
            0 <= i < postings@.len() ==> call_requires(
                callback,
                (#[trigger] postings@[i].ctid.spec_value(),),
            ),
    ensures
        dead@.len() == postings@.len(),
        forall|i: int|
            0 <= i < postings@.len() ==> call_ensures(
                callback,
                (postings@[i].ctid.spec_value(),),
                #[trigger] dead@[i],
            ),
{
    let mut dead: Vec<bool> = Vec::new();
    let mut i: usize = 0;
    while i < postings.len()
        invariant
            i <= postings@.len(),
            dead@.len() == i,
            forall|j: int|
                0 <= j < postings@.len() ==> call_requires(
                    callback,
                    (#[trigger] postings@[j].ctid.spec_value(),),
                ),
            forall|j: int|
                0 <= j < i ==> call_ensures(
                    callback,
                    (postings@[j].ctid.spec_value(),),
                    #[trigger] dead@[j],
                ),
        decreases postings@.len() - i,
    {
        let value = postings[i].ctid.value();
        assert(value == postings@[i as int].ctid.spec_value());
        let answer = callback(value);
        dead.push(answer);
        i += 1;
    }
    dead
}

/// Queues a delete for every posting that is marked dead, hands out the
/// batches that fill up on the way, and ends the session with a commit that
/// does not merge. Returns the batches, the commit and the number of deletes.
pub fn delete_dead(writer: SearchIndexWriter, postings: &Vec<RowPosting>, dead: &Vec<bool>) -> (done:
    (Vec<Vec<PendingOp>>, CommitPlan, usize))
    requires
        writer.wf(),
        dead@.len() == postings@.len(),
    ensures
        batches_view(done.0@) == enqueue_all(
            writer.pending(),
            dead_terms(writer.spec_ctid_field(), postings@, dead@),
        ).0,
        done.1.batch@ == enqueue_all(
            writer.pending(),
            dead_terms(writer.spec_ctid_field(), postings@, dead@),
        ).1,
        !done.1.should_merge,
        done.2 == dead_terms(writer.spec_ctid_field(), postings@, dead@).len(),
{
    let ghost field = writer.spec_ctid_field();
    let ghost start = writer.pending();
    let mut writer = writer;
    let mut flushed: Vec<Vec<PendingOp>> = Vec::new();
    let mut removed: usize = 0;
    let mut i: usize = 0;
    proof {
        assert(batches_view(flushed@) =~= Seq::<Seq<PendingOp>>::empty());
    }
    while i < postings.len()
        invariant
            i <= postings@.len(),
            dead@.len() == postings@.len(),
            writer.wf(),
            writer.spec_ctid_field() == field,
            batches_view(flushed@) == enqueue_all(
                start,
                dead_terms(field, postings@.take(i as int), dead@),
            ).0,
            writer.pending() == enqueue_all(
                start,
                dead_terms(field, postings@.take(i as int), dead@),
            ).1,
            removed == dead_terms(field, postings@.take(i as int), dead@).len(),
            removed <= i,
        decreases postings@.len() - i,
    {
        let ghost ops_before = dead_terms(field, postings@.take(i as int), dead@);
        let ghost ops_after = dead_terms(field, postings@.take(i + 1), dead@);
        proof {
            assert(postings@.take(i + 1).drop_last() == postings@.take(i as int));
            assert(postings@.take(i + 1).last() == postings@[i as int]);
        }
        if dead[i] {
            let term = IndexTerm::from_field_bytes(writer.get_ctid_field(), &postings[i].term_bytes);
            let ghost batches_before = batches_view(flushed@);
            proof {
                assert(ops_after == ops_before.push(PendingOp::Delete(term)));
                assert(ops_after.drop_last() =~= ops_before);
                assert(ops_after.last() == PendingOp::Delete(term));
            }
            match writer.delete_term(term) {
                Some(batch) => {
                    flushed.push(batch);
                    proof {
                        assert(batches_view(flushed@) =~= batches_before + seq![batch@]);
                    }
                },
                None => {
                    proof {
                        assert(batches_before + Seq::<Seq<PendingOp>>::empty()
                            =~= batches_before);
                    }
                },
            }
            removed += 1;
        }
        i += 1;
    }
    proof {
        assert(postings@.take(i as int) == postings@);
    }
    let commit = writer.commit(false);
    (flushed, commit, removed)
}

/// Scans the row identifiers of a relation's index for a vacuum. It tries the
/// relation's delete lock without waiting, opens a writer on live storage for
/// the engine, asks `callback` about every posting, queues a delete for each
/// row that is called dead, and commits without merging. The statistics are
/// the host's, or fresh ones where it has none. The cleanup lock is asked for
/// exactly where at least one row was deleted.
pub fn ambulkdelete<F: Fn(u64) -> bool>(
    locks: &mut MergeLockTable,
    relation_oid: u32,
    ctid_field: tantivy::schema::Field,
    resources: WriterResources,
    stats: Option<BulkDeleteStats>,
    postings: &Vec<RowPosting>,
    callback: F,
) -> (outcome: BulkDeleteOutcome)
    requires
        old(locks).wf(),
        forall|i: int|
            0 <= i < postings@.len() ==> call_requires(
                callback,
                (#[trigger] postings@[i].ctid.spec_value(),),
            ),
    ensures
        final(locks).wf(),
        outcome.delete_lock is Some <==> !old(locks).holds(delete_key(relation_oid)),
        outcome.delete_lock matches Some(lock) ==> lock.spec_key() == delete_key(relation_oid),
        outcome.delete_lock is Some ==> forall|other: LockKey|
            final(locks).holds(other) == (old(locks).holds(other) || other == delete_key(
                relation_oid,
            )),
        outcome.delete_lock is None ==> *final(locks) == *old(locks),
        outcome.setup == (EngineSetup {
            create: false,
            directory: BlockDirectoryType::Mutable,
            channel_capacity: CHANNEL_QUEUE_LEN,
            parallelism: resources.parallelism,
            memory_budget: resources.memory_budget,
            merge_policy: resources.merge_policy,
            docstore_compress_dedicated_thread: None,
        }),
        outcome.dead@.len() == postings@.len(),
        forall|i: int|
            0 <= i < postings@.len() ==> call_ensures(
                callback,
                (postings@[i].ctid.spec_value(),),
                #[trigger] outcome.dead@[i],
            ),
        batches_view(outcome.flushed@) == enqueue_all(
            Seq::empty(),
            dead_terms(ctid_field, postings@, outcome.dead@),
        ).0,
        outcome.commit.batch@ == enqueue_all(
            Seq::empty(),
            dead_terms(ctid_field, postings@, outcome.dead@),
        ).1,
        !outcome.commit.should_merge,
        outcome.stats == (match stats {
            Some(given) => given,
            None => BulkDeleteStats { pages_deleted: 0 },
        }),
        outcome.rows_examined == postings@.len(),
        outcome.rows_removed == dead_terms(ctid_field, postings@, outcome.dead@).len(),
        outcome.needs_cleanup_lock == (outcome.rows_removed > 0),
{
    let delete_lock = locks.acquire_for_delete(relation_oid);
    let (writer, setup) = SearchIndexWriter::open(
        relation_oid,
        ctid_field,
        BlockDirectoryType::Mutable,
        resources,
    );
    let dead = find_dead(postings, callback);
    let (flushed, commit, rows_removed) = delete_dead(writer, postings, &dead);
    let stats = match stats {
        Some(given) => given,
        None => BulkDeleteStats { pages_deleted: 0 },
    };
    BulkDeleteOutcome {
        delete_lock,
        setup,
        dead,
        flushed,
        commit,
        stats,
        rows_examined: postings.len(),
        rows_removed,
        needs_cleanup_lock: rows_removed > 0,
    }
}

/// How many rows are marked dead.
pub open spec fn marked(dead: Seq<bool>) -> nat
    decreases dead.len(),
{
    if dead.len() == 0 {
        0
    } else if dead.last() {
        marked(dead.drop_last()) + 1
    } else {
        marked(dead.drop_last())
    }
}

/// A scan queues exactly one delete for each row that is marked dead: as
/// many deletes as marks, and never more than there are rows.
pub proof fn lemma_one_delete_per_dead_row(
    field: tantivy::schema::Field,
    postings: Seq<RowPosting>,
    dead: Seq<bool>,
)
    requires
        dead.len() == postings.len(),
    ensures
        dead_terms(field, postings, dead).len() == marked(dead),
        marked(dead) <= dead.len(),
{
    lemma_deletes_of_prefix(field, postings, dead, postings.len());
    assert(postings.take(postings.len() as int) == postings);
    assert(dead.take(dead.len() as int) == dead);
}

/// The deletes of the first `n` postings are as many as the marks on them.
proof fn lemma_deletes_of_prefix(
    field: tantivy::schema::Field,
    postings: Seq<RowPosting>,
    dead: Seq<bool>,
    n: nat,
)
    requires
        n <= postings.len(),
        dead.len() == postings.len(),
    ensures
        dead_terms(field, postings.take(n as int), dead).len() == marked(dead.take(n as int)),
        marked(dead.take(n as int)) <= n,
    decreases n,
{
    if n > 0 {
        lemma_deletes_of_prefix(field, postings, dead, (n - 1) as nat);
        assert(postings.take(n as int).drop_last() == postings.take(n - 1));
        assert(dead.take(n as int).drop_last() == dead.take(n - 1));
        assert(dead.take(n as int).last() == dead[n - 1]);
    }
}

/// A scan in which the host calls no row dead queues no delete.
pub proof fn lemma_no_dead_rows_no_deletes(
    field: tantivy::schema::Field,
    postings: Seq<RowPosting>,
    dead: Seq<bool>,
)
    requires
        dead.len() == postings.len(),
        forall|i: int| 0 <= i < dead.len() ==> !dead[i],
    ensures
        dead_terms(field, postings, dead) == Seq::<PendingOp>::empty(),
{
    lemma_dead_terms_prefix(field, postings, dead, postings.len());
    assert(postings.take(postings.len() as int) == postings);
}

/// The deletes of the first `n` postings, where none of them is marked dead,
/// are none.
proof fn lemma_dead_terms_prefix(
    field: tantivy::schema::Field,
    postings: Seq<RowPosting>,
    dead: Seq<bool>,
    n: nat,
)
    requires
        n <= postings.len() <= dead.len(),
        forall|i: int| 0 <= i < n ==> !dead[i],
    ensures
        dead_terms(field, postings.take(n as int), dead) == Seq::<PendingOp>::empty(),
    decreases n,
{
    if n > 0 {
        lemma_dead_terms_prefix(field, postings, dead, (n - 1) as nat);
        assert(postings.take(n as int).drop_last() == postings.take(n - 1));
    }
}

} // verus!
