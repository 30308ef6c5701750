use shorturl::config::AppConfig;
use shorturl::models::UrlMapping;
use shorturl::record::{created_mapping, found_mapping, to_model, StoreError, UrlMappingRecord};
use shorturl::service::{
    after_long_url_lookup, after_short_code_lookup, after_touch, CreateAction, LookupAction,
};

fn record(last_accessed_at: &str, access_count: u64) -> UrlMappingRecord {
    UrlMappingRecord {
        long_url: "https://example.com/p".to_string(),
        short_code: "abcdEF12".to_string(),
        created_at: "2024-01-01T00:00:00Z".to_string(),
        last_accessed_at: last_accessed_at.to_string(),
        access_count,
    }
}

fn mapping() -> UrlMapping {
    to_model(record("", 0))
}

#[test]
fn record_without_access_time_has_none() {
    let m = to_model(record("", 0));
    assert_eq!(m.short_code, "abcdEF12");
    assert_eq!(m.long_url, "https://example.com/p");
    assert_eq!(m.created_at, "2024-01-01T00:00:00Z");
    assert_eq!(m.last_accessed_at, None);
    assert_eq!(m.access_count, 0);
}

#[test]
fn record_with_access_time_keeps_it() {
    let m = to_model(record("2024-02-02T10:00:00Z", 3));
    assert_eq!(m.last_accessed_at, Some("2024-02-02T10:00:00Z".to_string()));
    assert_eq!(m.access_count, 3);
}

#[test]
fn found_mapping_maps_the_record() {
    assert!(found_mapping(None).is_none());
    let m = found_mapping(Some(record("", 7))).unwrap();
    assert_eq!(m.access_count, 7);
}

#[test]
fn insert_without_record_is_db_error() {
    assert!(matches!(created_mapping(Ok(None)), Err(StoreError::Db)));
    let m = created_mapping(Ok(Some(record("", 0)))).ok().unwrap();
    assert_eq!(m.short_code, "abcdEF12");
    match created_mapping(Err(StoreError::Backend("down".to_string()))) {
        Err(StoreError::Backend(msg)) => assert_eq!(msg, "down"),
        _ => panic!("expected the backend error"),
    }
}

#[test]
fn known_long_url_is_reused() {
    match after_long_url_lookup(Ok(Some(mapping()))) {
        CreateAction::Reuse(m) => assert_eq!(m.short_code, "abcdEF12"),
        _ => panic!("expected reuse"),
    }
}

#[test]
fn new_long_url_gets_a_fresh_code() {
    match after_long_url_lookup(Ok(None)) {
        CreateAction::Insert(code) => assert_eq!(code.chars().count(), 8),
        _ => panic!("expected an insert"),
    }
    assert!(matches!(after_long_url_lookup(Err(StoreError::Db)), CreateAction::Fail(StoreError::Db)));
}

#[test]
fn found_code_is_touched_once_then_answered() {
    match after_short_code_lookup(Ok(Some(mapping()))) {
        LookupAction::Touch { short_code, long_url } => {
            assert_eq!(short_code, "abcdEF12");
            assert_eq!(long_url, "https://example.com/p");
            assert_eq!(after_touch(long_url, Ok(())).ok().unwrap(), Some("https://example.com/p".to_string()));
        }
        _ => panic!("expected a touch"),
    }
    assert!(matches!(after_touch("x".to_string(), Err(StoreError::Db)), Err(StoreError::Db)));
}

#[test]
fn unknown_code_is_no_error() {
    match after_short_code_lookup(Ok(None)) {
        LookupAction::Finish(Ok(None)) => {}
        _ => panic!("expected no result"),
    }
    assert!(matches!(
        after_short_code_lookup(Err(StoreError::Db)),
        LookupAction::Finish(Err(StoreError::Db))
    ));
}

#[test]
fn config_defaults_and_overrides() {
    let d = AppConfig::from_values(None, None, None, None, None, None);
    assert_eq!(d.server_addr, "127.0.0.1:8080");
    assert_eq!(d.surrealdb_url, "127.0.0.1:8000");
    assert_eq!(d.surrealdb_user, "root");
    assert_eq!(d.surrealdb_pass, "root");
    assert_eq!(d.surrealdb_ns, "shorturl");
    assert_eq!(d.surrealdb_db, "shorturl");
    let c = AppConfig::from_values(Some("0.0.0.0:80".to_string()), None, Some("admin".to_string()), None, None, Some("prod".to_string()));
    assert_eq!(c.server_addr, "0.0.0.0:80");
    assert_eq!(c.surrealdb_user, "admin");
    assert_eq!(c.surrealdb_db, "prod");
    assert_eq!(c.surrealdb_ns, "shorturl");
}
