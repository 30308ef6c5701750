use shorturl::handlers::{redirect, shorten, CreateShortUrlRequest};
use shorturl::responses::{redirect_reply, STATUS_FOUND, STATUS_NOT_FOUND};
use shorturl::record::StoreError;
use shorturl::store::InMemoryUrlStore;

#[test]
fn create_and_redirect_short_url_works() {
    let mut store = InMemoryUrlStore::new();
    let long_url = "https://example.com/test";
    let req = CreateShortUrlRequest { long_url: long_url.to_string() };

    let mapping = shorten(&mut store, &req.long_url).ok().unwrap();
    assert_eq!(mapping.long_url, long_url);
    assert!(!mapping.short_code.is_empty());

    let reply = redirect(&store, &mapping.short_code);
    assert_eq!(reply.status, STATUS_FOUND);
    assert_eq!(reply.status, 302);
    assert_eq!(reply.location, Some(long_url.to_string()));
}

#[test]
fn empty_url_is_rejected() {
    let mut store = InMemoryUrlStore::new();
    let rejected = shorten(&mut store, "").err().unwrap();
    assert_eq!(rejected.status, 400);
    assert_eq!(rejected.error, "Invalid URL");
    assert_eq!(rejected.reason, "URL must not be empty");
}

#[test]
fn malformed_url_is_rejected() {
    let mut store = InMemoryUrlStore::new();
    let rejected = shorten(&mut store, "not a url").err().unwrap();
    assert_eq!(rejected.status, 400);
    assert_eq!(rejected.reason, "URL must be a valid http or https URL");
}

#[test]
fn rejected_url_is_not_stored() {
    let mut store = InMemoryUrlStore::new();
    assert!(shorten(&mut store, "ftp://x").is_err());
    let m = store.get_or_create("https://example.com/after");
    assert_eq!(store.get_long_url(&m.short_code), Some("https://example.com/after".to_string()));
}

#[test]
fn unknown_code_is_not_found() {
    let store = InMemoryUrlStore::new();
    let reply = redirect(&store, "doesnotexist");
    assert_eq!(reply.status, STATUS_NOT_FOUND);
    assert_eq!(reply.status, 404);
    assert_eq!(reply.location, None);
}

#[test]
fn store_failure_is_a_server_error() {
    let reply = redirect_reply(Err(StoreError::Backend("connection reset".to_string())));
    assert_eq!(reply.status, 500);
    assert_eq!(reply.location, None);
    let reply = redirect_reply(Err(StoreError::Db));
    assert_eq!(reply.status, 500);
}
