use webnis::cache::{
    fetch_result, is_check_due, is_file_unchanged, modified_for_open, CacheStep, DbCache, FileStat,
    Timestamp, WnError, CHECK_INTERVAL_SECS,
};

fn at(secs: u64, nanos: u32) -> Timestamp {
    Timestamp { secs, nanos }
}

#[test]
fn check_interval() {
    assert_eq!(CHECK_INTERVAL_SECS, 5);
    assert!(!is_check_due(at(100, 0), at(104, 999_999_999)));
    assert!(is_check_due(at(100, 0), at(105, 0)));
    assert!(!is_check_due(at(100, 500), at(105, 499)));
    assert!(is_check_due(at(100, 500), at(105, 500)));
    assert!(!is_check_due(at(100, 0), at(50, 0)));
    assert!(is_check_due(at(0, 0), at(u64::MAX, 999_999_999)));
}

#[test]
fn unchanged_file() {
    let m = Some(at(7, 1));
    assert!(is_file_unchanged(m, FileStat::Readable(Some(at(7, 1)))));
    assert!(!is_file_unchanged(m, FileStat::Readable(Some(at(7, 2)))));
    assert!(!is_file_unchanged(m, FileStat::Readable(None)));
    assert!(!is_file_unchanged(m, FileStat::Unreadable));
    assert!(!is_file_unchanged(None, FileStat::Readable(None)));
    assert!(!is_file_unchanged(None, FileStat::Readable(Some(at(7, 1)))));
}

#[test]
fn open_and_fetch_errors() {
    assert_eq!(modified_for_open(FileStat::Unreadable), Err(WnError::MapNotFound));
    assert_eq!(modified_for_open(FileStat::Readable(None)), Ok(None));
    assert_eq!(modified_for_open(FileStat::Readable(Some(at(1, 2)))), Ok(Some(at(1, 2))));
    assert_eq!(fetch_result(None), Err(WnError::KeyNotFound));
    assert_eq!(fetch_result(Some("v".to_string())), Ok("v".to_string()));
}

#[test]
fn first_lookup_opens() {
    let mut cache: DbCache<u32> = DbCache::new();
    assert_eq!(cache.len(), 0);
    assert_eq!(cache.begin("/db/passwd", at(10, 0)), CacheStep::Open);
    assert_eq!(cache.handle("/db/passwd"), None);
    cache.store("/db/passwd", 1, Some(at(3, 0)), at(10, 0));
    assert_eq!(cache.len(), 1);
    assert_eq!(cache.handle("/db/passwd"), Some(&1));
    assert_eq!(cache.find("/db/passwd"), Some(0));
    assert_eq!(cache.find("/db/group"), None);
}

#[test]
fn lookup_within_five_seconds_reads_no_metadata() {
    let mut cache: DbCache<u32> = DbCache::new();
    cache.store("/db/passwd", 1, Some(at(3, 0)), at(10, 0));
    assert_eq!(cache.begin("/db/passwd", at(12, 0)), CacheStep::Serve);
    assert_eq!(cache.begin("/db/passwd", at(16, 999_999_999)), CacheStep::Serve);
    assert_eq!(cache.begin("/db/passwd", at(21, 999_999_998)), CacheStep::Serve);
    assert_eq!(cache.handle("/db/passwd"), Some(&1));
    assert_eq!(cache.len(), 1);
}

#[test]
fn lookup_after_five_seconds_checks_the_file() {
    let mut cache: DbCache<u32> = DbCache::new();
    cache.store("/db/passwd", 1, Some(at(3, 0)), at(10, 0));
    assert_eq!(cache.begin("/db/passwd", at(15, 0)), CacheStep::Stat);
    assert_eq!(
        cache.after_stat("/db/passwd", FileStat::Readable(Some(at(3, 0))), at(15, 0)),
        CacheStep::Serve
    );
    assert_eq!(cache.begin("/db/passwd", at(19, 0)), CacheStep::Serve);
    assert_eq!(cache.handle("/db/passwd"), Some(&1));
}

#[test]
fn changed_file_is_reopened() {
    let mut cache: DbCache<u32> = DbCache::new();
    cache.store("/db/passwd", 1, Some(at(3, 0)), at(10, 0));
    cache.store("/db/group", 2, Some(at(3, 0)), at(10, 0));
    assert_eq!(cache.begin("/db/passwd", at(16, 0)), CacheStep::Stat);
    assert_eq!(
        cache.after_stat("/db/passwd", FileStat::Readable(Some(at(14, 0))), at(16, 0)),
        CacheStep::Open
    );
    assert_eq!(cache.handle("/db/passwd"), None);
    assert_eq!(cache.handle("/db/group"), Some(&2));
    cache.store("/db/passwd", 3, Some(at(14, 0)), at(16, 0));
    assert_eq!(cache.handle("/db/passwd"), Some(&3));
    assert_eq!(cache.begin("/db/passwd", at(17, 0)), CacheStep::Serve);
    assert_eq!(cache.len(), 2);
}

#[test]
fn unreadable_file_evicts() {
    let mut cache: DbCache<u32> = DbCache::new();
    cache.store("/db/passwd", 1, Some(at(3, 0)), at(10, 0));
    assert_eq!(cache.begin("/db/passwd", at(20, 0)), CacheStep::Stat);
    assert_eq!(cache.after_stat("/db/passwd", FileStat::Unreadable, at(20, 0)), CacheStep::Open);
    assert_eq!(cache.len(), 0);
}

#[test]
fn store_keeps_one_entry_for_a_path() {
    let mut cache: DbCache<u32> = DbCache::new();
    cache.store("/db/passwd", 1, None, at(10, 0));
    cache.store("/db/passwd", 2, None, at(11, 0));
    assert_eq!(cache.len(), 1);
    assert_eq!(cache.handle("/db/passwd"), Some(&2));
}

#[test]
fn clock_that_went_back_serves() {
    let mut cache: DbCache<u32> = DbCache::new();
    cache.store("/db/passwd", 1, None, at(10, 0));
    assert_eq!(cache.begin("/db/passwd", at(2, 0)), CacheStep::Serve);
    assert_eq!(cache.begin("/db/passwd", at(6, 0)), CacheStep::Serve);
    assert_eq!(cache.begin("/db/passwd", at(11, 0)), CacheStep::Stat);
}
