use svn_browser::cache::{ResultCache, MAX_VALIDITY_OF_CACHED_LIST_MS};
use svn_browser::error::CustomError;
use svn_browser::request::{DataRequest, TargetUrl};
use svn_browser::response::{CommitInfo, DataResponse, ListEntry, PathKind};

fn list_req(path: &str) -> DataRequest {
    DataRequest::List(TargetUrl(path.to_string()))
}

fn text(s: &str) -> DataResponse {
    DataResponse::Text(s.to_string())
}

#[test]
fn validity_window_is_fifteen_minutes() {
    assert_eq!(MAX_VALIDITY_OF_CACHED_LIST_MS, 15 * 60 * 1000);
    let c = ResultCache::new(MAX_VALIDITY_OF_CACHED_LIST_MS);
    assert_eq!(c.window_ms(), 900_000);
}

#[test]
fn put_then_get_at_once_returns_value() {
    let mut c = ResultCache::new(1000);
    c.put(list_req("/repo/"), text("a"), 5000);
    assert_eq!(c.get(&list_req("/repo/"), 5000), Some(text("a")));
}

#[test]
fn get_within_window_returns_value() {
    let mut c = ResultCache::new(1000);
    c.put(list_req("/repo/"), text("a"), 5000);
    assert_eq!(c.get(&list_req("/repo/"), 5999), Some(text("a")));
}

#[test]
fn get_once_window_has_passed_returns_none() {
    let mut c = ResultCache::new(1000);
    c.put(list_req("/repo/"), text("a"), 5000);
    assert_eq!(c.get(&list_req("/repo/"), 6000), None);
    assert_eq!(c.get(&list_req("/repo/"), 100_000), None);
}

#[test]
fn get_with_clock_moved_back_is_a_miss() {
    let mut c = ResultCache::new(1000);
    c.put(list_req("/repo/"), text("a"), 5000);
    assert_eq!(c.get(&list_req("/repo/"), 4999), None);
}

#[test]
fn get_of_unknown_key_is_none() {
    let mut c = ResultCache::new(1000);
    assert_eq!(c.get(&list_req("/repo/"), 0), None);
    c.put(list_req("/repo/"), text("a"), 0);
    assert_eq!(c.get(&list_req("/repo/docs/"), 0), None);
}

#[test]
fn key_is_kind_and_path() {
    let mut c = ResultCache::new(1000);
    c.put(list_req("/repo/a"), text("listing"), 0);
    c.put(DataRequest::Text(TargetUrl("/repo/a".to_string())), text("content"), 0);
    assert_eq!(c.get(&list_req("/repo/a"), 10), Some(text("listing")));
    assert_eq!(
        c.get(&DataRequest::Text(TargetUrl("/repo/a".to_string())), 10),
        Some(text("content"))
    );
    assert_eq!(c.get(&DataRequest::Info(TargetUrl("/repo/a".to_string())), 10), None);
    assert_eq!(c.get(&DataRequest::Log(TargetUrl("/repo/a".to_string())), 10), None);
}

#[test]
fn put_overwrites_and_restamps() {
    let mut c = ResultCache::new(1000);
    c.put(list_req("/repo/"), text("old"), 0);
    c.put(list_req("/repo/"), text("new"), 900);
    assert_eq!(c.get(&list_req("/repo/"), 1500), Some(text("new")));
    assert_eq!(c.get(&list_req("/repo/"), 1900), None);
}

#[test]
fn zero_window_never_hits() {
    let mut c = ResultCache::new(0);
    c.put(list_req("/repo/"), text("a"), 7);
    assert_eq!(c.get(&list_req("/repo/"), 7), None);
}

#[test]
fn record_stores_success() {
    let mut c = ResultCache::new(1000);
    let entry = ListEntry {
        name: "intro.md".to_string(),
        kind: PathKind::File,
        commit: CommitInfo { revision: 3, author: "ann".to_string(), date: "d".to_string() },
    };
    let out = c.record(&list_req("/repo/docs/"), Ok(DataResponse::List(vec![entry.clone()])), 10);
    assert_eq!(out, Ok(DataResponse::List(vec![entry.clone()])));
    assert_eq!(c.get(&list_req("/repo/docs/"), 20), Some(DataResponse::List(vec![entry])));
}

#[test]
fn record_does_not_store_unavailable() {
    let mut c = ResultCache::new(1000);
    let out = c.record(
        &list_req("/repo/"),
        Err(CustomError::RemoteUnavailable("down".to_string())),
        10,
    );
    assert!(matches!(out, Err(CustomError::RemoteUnavailable(ref m)) if m == "down"));
    assert_eq!(c.get(&list_req("/repo/"), 10), None);
}

#[test]
fn record_does_not_store_rejected_nor_drop_earlier_value() {
    let mut c = ResultCache::new(1000);
    c.put(list_req("/repo/"), text("kept"), 0);
    let out = c.record(
        &list_req("/repo/"),
        Err(CustomError::RemoteRejected("no".to_string())),
        10,
    );
    assert!(matches!(out, Err(CustomError::RemoteRejected(_))));
    assert_eq!(c.get(&list_req("/repo/"), 10), Some(text("kept")));
}
