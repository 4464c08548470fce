use anynode::download::{
    after_attempt, content_range_total, get_temp_path, plan_transfer, range_header, FileError,
    RetryStep, Transfer, TransferStart, MAX_RETRIES, RETRY_DELAY_SECS,
};

#[test]
fn resume_with_range_support_reaches_total() {
    let existing = 400u64;
    assert_eq!(range_header(existing), "bytes=400-");
    let start = plan_transfer(existing, 206, Some("bytes 400-999/1000".to_string()), Some(600)).unwrap();
    assert_eq!(start, TransferStart { start_byte: 400, total_size: 1000 });
    let mut t = Transfer::begin(start);
    t.record_chunk(350);
    t.record_chunk(250);
    assert_eq!(t.downloaded(), 1000);
    assert!(t.finish().is_ok());
}

#[test]
fn resume_without_range_support_restarts() {
    let start = plan_transfer(400, 200, None, Some(1000)).unwrap();
    assert_eq!(start, TransferStart { start_byte: 0, total_size: 1000 });
    let mut t = Transfer::begin(start);
    t.record_chunk(1000);
    assert_eq!(t.downloaded(), 1000);
    assert!(t.finish().is_ok());
}

#[test]
fn short_transfer_is_a_failure() {
    let mut t = Transfer::begin(TransferStart { start_byte: 10, total_size: 100 });
    t.record_chunk(50);
    match t.finish() {
        Err(FileError::DownloadFailed(m)) => assert_eq!(m, "Incomplete download: got 60 of 100 bytes"),
        other => panic!("unexpected {:?}", other),
    }
    let unknown = Transfer::begin(TransferStart { start_byte: 0, total_size: 0 });
    assert!(unknown.finish().is_ok());
}

#[test]
fn http_errors() {
    match plan_transfer(0, 404, None, None) {
        Err(FileError::DownloadFailed(m)) => assert_eq!(m, "HTTP error: 404"),
        other => panic!("unexpected {:?}", other),
    }
    assert!(plan_transfer(5, 416, None, None).is_err());
    let fresh = plan_transfer(0, 200, None, None).unwrap();
    assert_eq!(fresh, TransferStart { start_byte: 0, total_size: 0 });
}

#[test]
fn content_range_parsing() {
    assert_eq!(content_range_total("bytes 0-9/10", 3), 10);
    assert_eq!(content_range_total("bytes 0-9/*", 3), 3);
    assert_eq!(content_range_total("", 3), 3);
    assert_eq!(content_range_total("42", 3), 42);
    let start = plan_transfer(7, 206, None, None).unwrap();
    assert_eq!(start, TransferStart { start_byte: 7, total_size: 7 });
}

#[test]
fn retries_then_gives_up() {
    assert_eq!(MAX_RETRIES, 5);
    assert_eq!(after_attempt(1, true), RetryStep::Finish);
    for attempt in 1..MAX_RETRIES {
        assert_eq!(after_attempt(attempt, false), RetryStep::RetryAfter { delay_secs: RETRY_DELAY_SECS });
    }
    assert_eq!(after_attempt(5, false), RetryStep::GiveUp);
    assert_eq!(RETRY_DELAY_SECS, 5);
}

#[test]
fn temp_path_is_a_sibling() {
    assert_eq!(get_temp_path("/data/whosonfirst.db.bz2"), "/data/whosonfirst.db.bz2.part");
}
