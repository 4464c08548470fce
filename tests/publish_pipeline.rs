use anynode::publish::{
    commit_batch, mapping_rows, needs_upsert, process_file_for_upload, settle_batch, FileAction,
    LocalityUploadError, PublishState, UploadResult,
};
use anynode::queue::{PendingUpload, QueueError, UploadQueue, UploadStats};

fn pending(id: u32) -> PendingUpload {
    PendingUpload::new("ZZ".to_string(), id, format!("/out/ZZ/{}.pmtiles", id))
}

fn stored(cid: &str, size: u64) -> Option<UploadResult> {
    Some(UploadResult { cid: cid.to_string(), size })
}

#[test]
fn add_at_capacity_fails_and_leaves_queue_unchanged() {
    let mut q = UploadQueue::new(10, 2);
    assert!(q.add_upload(pending(1)).is_ok());
    assert!(q.add_upload(pending(2)).is_ok());
    assert_eq!(q.add_upload(pending(3)), Err(QueueError::AtCapacity { capacity: 2 }));
    assert_eq!(q.len(), 2);
    let batch = q.take_batch();
    let ids: Vec<u32> = batch.iter().map(|p| p.locality_id).collect();
    assert_eq!(ids, vec![1, 2]);
}

#[test]
fn take_batch_on_empty_queue_is_empty_and_stats_stay() {
    let mut q = UploadQueue::new(3, 5);
    let stats = UploadStats::new();
    let batch = q.take_batch();
    assert!(batch.is_empty());
    assert!(q.is_empty());
    assert_eq!(stats, UploadStats::new());
    assert_eq!(stats.total_uploaded, 0);
    assert_eq!(stats.total_failed, 0);
    assert_eq!(stats.total_bytes_uploaded, 0);
}

#[test]
fn take_batch_takes_at_most_the_trigger_size_in_order() {
    let mut q = UploadQueue::new(2, 10);
    for id in 1..=5 {
        q.add_upload(pending(id)).unwrap();
    }
    assert!(q.is_full());
    let first: Vec<u32> = q.take_batch().iter().map(|p| p.locality_id).collect();
    assert_eq!(first, vec![1, 2]);
    assert_eq!(q.len(), 3);
    let second: Vec<u32> = q.take_batch().iter().map(|p| p.locality_id).collect();
    assert_eq!(second, vec![3, 4]);
    let third: Vec<u32> = q.take_batch().iter().map(|p| p.locality_id).collect();
    assert_eq!(third, vec![5]);
    assert!(q.is_empty());
}

#[test]
fn file_actions_follow_catalog_and_dedup_answers() {
    let mut q = UploadQueue::new(2, 3);
    assert_eq!(
        process_file_for_upload(&mut q, "ZZ", 1, "/out/ZZ/1.pmtiles", false, false),
        FileAction::UnknownRegion
    );
    assert_eq!(
        process_file_for_upload(&mut q, "ZZ", 1, "/out/ZZ/1.pmtiles", true, true),
        FileAction::AlreadyMapped
    );
    assert!(q.is_empty());
    assert_eq!(
        process_file_for_upload(&mut q, "ZZ", 1, "/out/ZZ/1.pmtiles", true, false),
        FileAction::Enqueued { flush_now: false }
    );
    assert_eq!(
        process_file_for_upload(&mut q, "ZZ", 2, "/out/ZZ/2.pmtiles", true, false),
        FileAction::Enqueued { flush_now: true }
    );
    assert_eq!(
        process_file_for_upload(&mut q, "ZZ", 3, "/out/ZZ/3.pmtiles", true, false),
        FileAction::Enqueued { flush_now: true }
    );
    assert_eq!(
        process_file_for_upload(&mut q, "ZZ", 4, "/out/ZZ/4.pmtiles", true, false),
        FileAction::QueueFull
    );
    assert_eq!(q.len(), 3);
    let batch = q.take_batch();
    assert_eq!(batch[0].country_code, "ZZ");
    assert_eq!(batch[0].file_path, "/out/ZZ/1.pmtiles");
    assert_eq!(batch[1].locality_id, 2);
}

#[test]
fn batch_of_four_with_second_put_failing() {
    let batch = vec![pending(1), pending(2), pending(3), pending(4)];
    let outcomes = vec![stored("cidA", 10), None, stored("cidC", 30), stored("cidD", 40)];
    let outcome = settle_batch(batch, outcomes);
    assert_eq!(outcome.completed.len(), 3);
    assert_eq!(outcome.failed, 1);
    assert!(needs_upsert(&outcome));
    let rows = mapping_rows(&outcome.completed);
    assert_eq!(rows.len(), 3);
    assert_eq!(rows[0], ("ZZ".to_string(), 1, "cidA".to_string(), 10));
    assert_eq!(rows[1], ("ZZ".to_string(), 3, "cidC".to_string(), 30));
    assert_eq!(rows[2], ("ZZ".to_string(), 4, "cidD".to_string(), 40));
    let mut stats = UploadStats::new();
    assert!(commit_batch(&mut stats, &outcome, Ok(())).is_ok());
    assert_eq!(stats.total_uploaded, 3);
    assert_eq!(stats.total_failed, 1);
    assert_eq!(stats.total_bytes_uploaded, 80);
}

#[test]
fn failed_upsert_counts_nothing_of_the_batch() {
    let batch = vec![pending(1), pending(2)];
    let outcome = settle_batch(batch, vec![stored("a", 5), None]);
    let mut stats = UploadStats::new();
    stats.increment_uploaded(7);
    let before = stats;
    let r = commit_batch(&mut stats, &outcome, Err("disk full".to_string()));
    match r {
        Err(LocalityUploadError::DatabaseError(m)) => assert_eq!(m, "disk full"),
        other => panic!("unexpected {:?}", other),
    }
    assert_eq!(stats, before);
    assert_eq!(stats.total_uploaded, 1);
}

#[test]
fn batch_with_only_failures_needs_no_upsert() {
    let outcome = settle_batch(vec![pending(1), pending(2)], vec![None, None]);
    assert!(!needs_upsert(&outcome));
    let mut stats = UploadStats::new();
    assert!(commit_batch(&mut stats, &outcome, Err("unused".to_string())).is_ok());
    assert_eq!(stats.total_failed, 2);
    assert_eq!(stats.total_uploaded, 0);
}

#[test]
fn publishing_twice_uploads_nothing_the_second_time() {
    let files: Vec<u32> = vec![1, 2, 3];
    let mut mapped: Vec<(String, u32)> = Vec::new();
    let mut stats = UploadStats::new();
    for run in 0..2 {
        let mut q = UploadQueue::new(10, 100);
        for id in &files {
            let is_mapped = mapped.contains(&("ZZ".to_string(), *id));
            let path = format!("/out/ZZ/{}.pmtiles", id);
            process_file_for_upload(&mut q, "ZZ", *id, &path, true, is_mapped);
        }
        let batch = q.take_batch();
        let n = batch.len();
        let outcomes = (0..n).map(|i| stored(&format!("cid{}", i), 1)).collect();
        let outcome = settle_batch(batch, outcomes);
        for row in mapping_rows(&outcome.completed) {
            mapped.push((row.0, row.1));
        }
        commit_batch(&mut stats, &outcome, Ok(())).unwrap();
        if run == 0 {
            assert_eq!(n, 3);
        } else {
            assert_eq!(n, 0);
        }
    }
    assert_eq!(stats.total_uploaded, 3);
}

#[test]
fn stats_increment() {
    let mut s = UploadStats::new();
    s.increment_uploaded(100);
    s.increment_uploaded(23);
    s.increment_failed();
    assert_eq!(s.total_uploaded, 2);
    assert_eq!(s.total_bytes_uploaded, 123);
    assert_eq!(s.total_failed, 1);
}

#[test]
fn publish_state_counts_only_committed_batches() {
    let mut st = PublishState::new(4, 8);
    for id in 1..=4 {
        let path = format!("/out/ZZ/{}.pmtiles", id);
        let action = st.on_file("ZZ", id, &path, true, false);
        assert_eq!(action, FileAction::Enqueued { flush_now: id == 4 });
    }
    let batch = st.take_batch();
    assert_eq!(batch.len(), 4);
    assert!(st.is_queue_empty());
    let outcome = settle_batch(batch, vec![stored("a", 1), None, stored("c", 3), stored("d", 4)]);
    assert!(st.finish_batch(&outcome, Err("locked".to_string())).is_err());
    assert_eq!(st.stats(), UploadStats::new());
    assert!(st.finish_batch(&outcome, Ok(())).is_ok());
    assert_eq!(st.stats().total_uploaded, 3);
    assert_eq!(st.stats().total_failed, 1);
    assert_eq!(st.stats().total_bytes_uploaded, 8);
    let empty = st.take_batch();
    assert!(empty.is_empty());
    assert_eq!(st.stats().total_uploaded, 3);
}
