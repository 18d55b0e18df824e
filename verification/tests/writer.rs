use pg_search::merge_lock::{LockKey, LockPurpose, MergeLockTable};
use pg_search::rowid::Ctid;
use pg_search::segment_metas::{SegmentMetaEntry, SegmentMetaList};
use pg_search::writer::{
    abandon_maintenance, conclude_maintenance, finish_maintenance, garbage_collect_metas,
    BlockDirectoryType, EngineCall, EngineSetup, MergePolicyKind, PendingOp, SearchIndexWriter,
    VacuumStep, WriterResources, CHANNEL_QUEUE_LEN, MAX_INSERT_QUEUE_SIZE,
};
use tantivy::schema::{Field, OwnedValue};
use tantivy::TantivyDocument;

fn resources(wants_merge: bool) -> WriterResources {
    WriterResources {
        parallelism: 2,
        memory_budget: 30_000_000,
        wants_merge,
        merge_policy: MergePolicyKind::Automatic,
    }
}

fn session(relation_oid: u32, wants_merge: bool) -> SearchIndexWriter {
    let field = Field::from_field_id(0);
    SearchIndexWriter::open(relation_oid, field, BlockDirectoryType::Mutable, resources(wants_merge)).0
}

fn merge_key(relation_oid: u32) -> LockKey {
    LockKey { relation_oid, purpose: LockPurpose::Merge }
}

#[test]
fn open_says_how_the_engine_is_set_up() {
    let field = Field::from_field_id(7);
    let (writer, setup) =
        SearchIndexWriter::open(42, field, BlockDirectoryType::Snapshot, resources(true));
    assert_eq!(writer.pending_len(), 0);
    assert_eq!(writer.get_ctid_field(), field);
    assert_eq!(writer.relation_oid(), 42);
    assert!(writer.wants_merge());
    assert_eq!(
        setup,
        EngineSetup {
            create: false,
            directory: BlockDirectoryType::Snapshot,
            channel_capacity: 1000,
            parallelism: 2,
            memory_budget: 30_000_000,
            merge_policy: MergePolicyKind::Automatic,
            docstore_compress_dedicated_thread: None,
        }
    );
    assert_eq!(CHANNEL_QUEUE_LEN, 1000);
    assert_eq!(MAX_INSERT_QUEUE_SIZE, 1000);
}

#[test]
fn create_index_builds_on_live_storage() {
    let field = Field::from_field_id(3);
    let (writer, setup) = SearchIndexWriter::create_index(9, field, resources(false));
    assert_eq!(writer.pending_len(), 0);
    assert!(!writer.wants_merge());
    assert_eq!(writer.get_ctid_field(), field);
    assert_eq!(
        setup,
        EngineSetup {
            create: true,
            directory: BlockDirectoryType::Mutable,
            channel_capacity: 1000,
            parallelism: 2,
            memory_budget: 30_000_000,
            merge_policy: MergePolicyKind::Automatic,
            docstore_compress_dedicated_thread: Some(false),
        }
    );
}

#[test]
fn insert_writes_the_packed_row_identifier_into_the_document() {
    let field = Field::from_field_id(0);
    let mut writer = session(1, true);
    let flushed = writer.insert(TantivyDocument::default(), Ctid { block: 5, offset: 9 });
    assert!(flushed.is_none());
    assert_eq!(writer.pending_len(), 1);
    let plan = writer.commit(false);
    assert_eq!(plan.batch.len(), 1);
    match &plan.batch[0] {
        PendingOp::Add(document, ctid) => {
            assert_eq!(*ctid, Ctid { block: 5, offset: 9 });
            assert_eq!(document.field_values().len(), 1);
            assert_eq!(document.field_values()[0].field(), field);
            assert_eq!(document.get_first(field), Some(&OwnedValue::U64(5 * 65536 + 9)));
        }
        PendingOp::Delete(_) => panic!("an insert queues an add"),
    }
}

#[test]
fn nothing_is_flushed_below_the_threshold() {
    let mut writer = session(1, true);
    for i in 0..999u32 {
        let flushed = writer.insert(TantivyDocument::default(), Ctid { block: i, offset: 1 });
        assert!(flushed.is_none());
        assert_eq!(writer.pending_len(), i as usize + 1);
    }
    let flushed = writer.insert(TantivyDocument::default(), Ctid { block: 999, offset: 1 });
    let batch = flushed.expect("the thousandth operation fills the batch");
    assert_eq!(batch.len(), 1000);
    assert_eq!(writer.pending_len(), 0);
    match &batch[0] {
        PendingOp::Add(_, ctid) => assert_eq!(ctid.block, 0),
        PendingOp::Delete(_) => panic!("the oldest operation comes first"),
    }
    match &batch[999] {
        PendingOp::Add(_, ctid) => assert_eq!(ctid.block, 999),
        PendingOp::Delete(_) => panic!("the newest operation comes last"),
    }
}

#[test]
fn fifteen_hundred_inserts_flush_once_and_commit_the_rest() {
    let mut writer = session(1, true);
    let mut flushes: Vec<usize> = Vec::new();
    for i in 0..1500u32 {
        if let Some(batch) = writer.insert(TantivyDocument::default(), Ctid { block: i, offset: 1 })
        {
            assert_eq!(i, 999);
            flushes.push(batch.len());
        }
    }
    let plan = writer.commit(false);
    assert!(!plan.should_merge);
    flushes.push(plan.batch.len());
    assert_eq!(flushes, vec![1000, 500]);
}

#[test]
fn commit_with_an_empty_queue_is_a_plain_commit() {
    let writer = session(1, true);
    let plan = writer.commit(true);
    assert!(plan.batch.is_empty());
    assert!(plan.should_merge);
    let plan = session(1, true).commit(false);
    assert!(plan.batch.is_empty());
    assert!(!plan.should_merge);
}

#[test]
fn commit_consumes_the_session() {
    let mut writer = session(1, true);
    assert!(writer.insert(TantivyDocument::default(), Ctid { block: 1, offset: 1 }).is_none());
    let plan = writer.commit(false);
    // `writer` has been moved: a later `writer.insert(..)` does not compile.
    assert_eq!(plan.batch.len(), 1);
}

#[test]
fn commit_inserts_takes_the_free_merge_lock() {
    let mut locks = MergeLockTable::new();
    let plan = session(7, true).commit_inserts(&mut locks);
    assert!(plan.commit.should_merge);
    let lock = plan.merge_lock.expect("the lock was free");
    assert_eq!(lock.key(), merge_key(7));
    assert!(locks.is_held(merge_key(7)));
    assert!(!locks.is_held(merge_key(8)));
}

#[test]
fn commit_inserts_without_merge_wish_leaves_the_lock() {
    let mut locks = MergeLockTable::new();
    let plan = session(7, false).commit_inserts(&mut locks);
    assert!(!plan.commit.should_merge);
    assert!(plan.merge_lock.is_none());
    assert!(!locks.is_held(merge_key(7)));
}

#[test]
fn of_two_sessions_one_collects_and_the_other_only_commits() {
    let mut locks = MergeLockTable::new();
    let mut metas = SegmentMetaList::new(7);
    metas.append(SegmentMetaEntry { segment_id: 1, xmin: 1, xmax: Some(2) });
    metas.append(SegmentMetaEntry { segment_id: 2, xmin: 2, xmax: None });

    let first = session(7, true).commit_inserts(&mut locks);
    let second = session(7, true).commit_inserts(&mut locks);
    assert!(first.commit.should_merge);
    assert!(first.merge_lock.is_some());
    assert!(!second.commit.should_merge);
    assert!(second.merge_lock.is_none());
    assert!(locks.is_held(merge_key(7)));

    let removed = finish_maintenance(second.merge_lock, &mut locks, &mut metas);
    assert_eq!(removed, 0);
    assert_eq!(metas.entries().len(), 2);
    assert!(locks.is_held(merge_key(7)));

    let removed = finish_maintenance(first.merge_lock, &mut locks, &mut metas);
    assert_eq!(removed, 1);
    assert_eq!(metas.entries(), vec![SegmentMetaEntry { segment_id: 2, xmin: 2, xmax: None }]);
    assert!(!locks.is_held(merge_key(7)));
}

#[test]
fn vacuum_merges_under_the_lock_whatever_the_session_wishes() {
    let mut locks = MergeLockTable::new();
    let writer = session(7, false);
    assert_eq!(writer.pending_len(), 0);
    match writer.vacuum(&mut locks) {
        VacuumStep::Commit(plan) => {
            assert!(plan.commit.should_merge);
            assert!(plan.commit.batch.is_empty());
            assert_eq!(plan.merge_lock.map(|lock| lock.key()), Some(merge_key(7)));
        }
        VacuumStep::Wait(_) => panic!("the lock was free"),
    }
    assert!(locks.is_held(merge_key(7)));
}

#[test]
fn vacuum_waits_for_a_held_lock() {
    let mut locks = MergeLockTable::new();
    let held = locks.acquire_for_merge(7).expect("the lock was free");
    let writer = match session(7, true).vacuum(&mut locks) {
        VacuumStep::Wait(writer) => writer,
        VacuumStep::Commit(_) => panic!("the lock is held"),
    };
    assert_eq!(writer.relation_oid(), 7);
    assert_eq!(writer.pending_len(), 0);
    locks.release(held);
    match writer.vacuum(&mut locks) {
        VacuumStep::Commit(plan) => assert!(plan.merge_lock.is_some()),
        VacuumStep::Wait(_) => panic!("the lock was released"),
    }
}

#[test]
fn garbage_collection_runs_under_the_merge_lock() {
    let mut locks = MergeLockTable::new();
    let lock = locks.acquire_for_merge(3).expect("the lock was free");
    let mut metas = SegmentMetaList::new(3);
    metas.append(SegmentMetaEntry { segment_id: 1, xmin: 1, xmax: Some(5) });
    metas.append(SegmentMetaEntry { segment_id: 2, xmin: 2, xmax: Some(6) });
    metas.append(SegmentMetaEntry { segment_id: 3, xmin: 5, xmax: None });
    metas.open_snapshot(5);
    assert_eq!(lock.key(), merge_key(metas.relation_oid()));
    let removed = garbage_collect_metas(&lock, &mut metas);
    assert_eq!(removed, 1);
    assert_eq!(
        metas.entries(),
        vec![
            SegmentMetaEntry { segment_id: 2, xmin: 2, xmax: Some(6) },
            SegmentMetaEntry { segment_id: 3, xmin: 5, xmax: None },
        ]
    );
}

#[test]
fn inserts_and_deletes_share_one_queue() {
    let field = Field::from_field_id(0);
    let mut writer = session(1, true);
    for i in 0..999u32 {
        let flushed = if i % 2 == 0 {
            writer.insert(TantivyDocument::default(), Ctid { block: i, offset: 1 })
        } else {
            let bytes = u64::from(i).to_be_bytes().to_vec();
            writer.delete_term(pg_search::engine::IndexTerm::from_field_bytes(field, &bytes))
        };
        assert!(flushed.is_none());
    }
    assert_eq!(writer.pending_len(), 999);
    let bytes = 999u64.to_be_bytes().to_vec();
    let batch = writer
        .delete_term(pg_search::engine::IndexTerm::from_field_bytes(field, &bytes))
        .expect("the thousandth operation fills the batch");
    assert_eq!(batch.len(), 1000);
    assert!(matches!(batch[0], PendingOp::Add(_, _)));
    assert!(matches!(batch[1], PendingOp::Delete(_)));
    match &batch[999] {
        PendingOp::Delete(term) => assert_eq!(term.value_bytes(), bytes),
        PendingOp::Add(_, _) => panic!("the last operation was a delete"),
    }
    assert_eq!(writer.pending_len(), 0);
    assert!(writer.commit(false).batch.is_empty());
}

#[test]
fn a_merging_commit_waits_for_the_merges_last() {
    let plan = session(1, true).commit(true);
    assert_eq!(plan.next_call(0, false), Some(EngineCall::Run));
    assert_eq!(plan.next_call(1, false), Some(EngineCall::Commit));
    assert_eq!(plan.next_call(2, false), Some(EngineCall::WaitForMerges));
    assert_eq!(plan.next_call(3, false), None);
    assert_eq!(plan.next_call(4, false), None);
}

#[test]
fn a_commit_without_merge_forbids_merging_first() {
    let plan = session(1, true).commit(false);
    assert_eq!(plan.next_call(0, false), Some(EngineCall::Run));
    assert_eq!(plan.next_call(1, false), Some(EngineCall::InstallNoMergePolicy));
    assert_eq!(plan.next_call(2, false), Some(EngineCall::Commit));
    assert_eq!(plan.next_call(3, false), None);
}

#[test]
fn a_failed_call_ends_the_commit() {
    let merging = session(1, true).commit(true);
    let plain = session(1, true).commit(false);
    for done in 0..5usize {
        assert_eq!(merging.next_call(done, true), None);
        assert_eq!(plain.next_call(done, true), None);
    }
}

#[test]
fn an_abandoned_commit_gives_the_lock_back() {
    let mut locks = MergeLockTable::new();
    let other = locks.acquire_for_merge(8).expect("the lock was free");
    let plan = session(7, true).commit_inserts(&mut locks);
    assert!(locks.is_held(merge_key(7)));
    abandon_maintenance(plan.merge_lock, &mut locks);
    assert!(!locks.is_held(merge_key(7)));
    assert!(locks.is_held(merge_key(8)));
    abandon_maintenance(None, &mut locks);
    assert!(locks.is_held(merge_key(8)));
    assert_eq!(other.key(), merge_key(8));
}

#[test]
fn a_failed_commit_collects_nothing_and_releases_the_lock() {
    let mut locks = MergeLockTable::new();
    let mut metas = SegmentMetaList::new(7);
    let retired = SegmentMetaEntry { segment_id: 1, xmin: 1, xmax: Some(2) };
    metas.append(retired);
    let plan = session(7, true).commit_inserts(&mut locks);
    let removed = conclude_maintenance(false, plan.merge_lock, &mut locks, &mut metas);
    assert_eq!(removed, 0);
    assert_eq!(metas.entries(), vec![retired]);
    assert!(!locks.is_held(merge_key(7)));

    let plan = session(7, true).commit_inserts(&mut locks);
    let removed = conclude_maintenance(true, plan.merge_lock, &mut locks, &mut metas);
    assert_eq!(removed, 1);
    assert!(metas.entries().is_empty());
    assert!(!locks.is_held(merge_key(7)));

    metas.append(retired);
    let removed = conclude_maintenance(true, None, &mut locks, &mut metas);
    assert_eq!(removed, 0);
    assert_eq!(metas.entries(), vec![retired]);
}

#[test]
fn collection_spares_what_an_open_snapshot_sees() {
    let mut locks = MergeLockTable::new();
    let mut metas = SegmentMetaList::new(7);
    let seen = SegmentMetaEntry { segment_id: 1, xmin: 1, xmax: Some(5) };
    let unseen = SegmentMetaEntry { segment_id: 2, xmin: 1, xmax: Some(3) };
    metas.append(seen);
    metas.append(unseen);
    metas.open_snapshot(9);
    metas.open_snapshot(4);
    assert_eq!(metas.horizon(), 4);
    let plan = session(7, true).commit_inserts(&mut locks);
    let removed = conclude_maintenance(true, plan.merge_lock, &mut locks, &mut metas);
    assert_eq!(removed, 1);
    assert_eq!(metas.entries(), vec![seen]);

    assert!(metas.close_snapshot(4));
    assert!(!metas.close_snapshot(4));
    assert_eq!(metas.horizon(), 9);
    let plan = session(7, true).commit_inserts(&mut locks);
    let removed = conclude_maintenance(true, plan.merge_lock, &mut locks, &mut metas);
    assert_eq!(removed, 1);
    assert!(metas.entries().is_empty());
    assert!(metas.close_snapshot(9));
    assert_eq!(metas.horizon(), u64::MAX);
}
