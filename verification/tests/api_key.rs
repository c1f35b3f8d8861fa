use bb_chipotle::api_key::ApiKey;
use bb_chipotle::api_key::ApiKeyError;
use bb_chipotle::api_key::BundleFetchEvent;
use bb_chipotle::api_key::CredentialCache;
use bb_chipotle::api_key::extract_api_key;

const FAKE_API_KEY: &str = "fake-api-key";

fn bundle_body(key: &str) -> String {
    format!(
        r#"thingthing;gatewaySubscriptionKey:Q("{}");3fjhkasfd78r3"#,
        key
    )
}

#[test]
fn api_key_get_success() {
    let mut cache = CredentialCache::new();
    let api_key = cache.accept(BundleFetchEvent::Body(bundle_body(FAKE_API_KEY)));
    assert!(
        api_key.is_ok(),
        "Failed to get API key: {:?}",
        api_key.unwrap_err()
    );
    assert_eq!(api_key.unwrap().get(), FAKE_API_KEY);
}

#[test]
fn api_key_get_bad_status() {
    let mut cache = CredentialCache::new();
    let api_key = cache.accept(BundleFetchEvent::StatusOnly(403));
    assert!(api_key.is_err());
    assert!(matches!(
        api_key.unwrap_err(),
        ApiKeyError::ResponseError(403)
    ));
}

#[test]
fn api_key_get_not_found() {
    let mut cache = CredentialCache::new();
    let api_key = cache.accept(BundleFetchEvent::Body("thingthing;3fjhkasfd78r3".to_string()));
    assert!(api_key.is_err());
    assert!(matches!(api_key.unwrap_err(), ApiKeyError::ApiKeyNotFound));
}

#[test]
fn api_key_transport_failure() {
    let mut cache = CredentialCache::new();
    let api_key = cache.accept(BundleFetchEvent::TransportFailed("connection refused".to_string()));
    assert_eq!(
        api_key.unwrap_err(),
        ApiKeyError::RequestError("connection refused".to_string())
    );
}

#[test]
fn api_key_unreadable_body() {
    let mut cache = CredentialCache::new();
    let api_key = cache.accept(BundleFetchEvent::BodyUnreadable("bad encoding".to_string()));
    assert_eq!(
        api_key.unwrap_err(),
        ApiKeyError::ResponseBodyError("bad encoding".to_string())
    );
}

#[test]
fn api_key_second_acquire_uses_cache() {
    let mut cache = CredentialCache::new();
    assert!(cache.needs_fetch(false));
    let first = cache
        .accept(BundleFetchEvent::Body(bundle_body(FAKE_API_KEY)))
        .unwrap();
    assert!(!cache.needs_fetch(false));
    let cached = cache.cached_key().unwrap();
    assert_eq!(cached.get(), first.get());
}

#[test]
fn api_key_force_refresh_always_fetches() {
    let mut cache = CredentialCache::new();
    cache
        .accept(BundleFetchEvent::Body(bundle_body(FAKE_API_KEY)))
        .unwrap();
    assert!(cache.needs_fetch(true));
}

#[test]
fn api_key_failed_refresh_keeps_cache() {
    let mut cache = CredentialCache::new();
    cache
        .accept(BundleFetchEvent::Body(bundle_body(FAKE_API_KEY)))
        .unwrap();
    let refresh = cache.accept(BundleFetchEvent::StatusOnly(500));
    assert!(refresh.is_err());
    assert_eq!(cache.cached_key().unwrap().get(), FAKE_API_KEY);
}

#[test]
fn api_key_forced_refresh_replaces_cache() {
    let mut cache = CredentialCache::new();
    cache
        .accept(BundleFetchEvent::Body(bundle_body("old-key")))
        .unwrap();
    assert!(cache.needs_fetch(true));
    let refreshed = cache
        .accept(BundleFetchEvent::Body(bundle_body("new-key")))
        .unwrap();
    assert_eq!(refreshed.get(), "new-key");
    assert_eq!(cache.cached_key().unwrap().get(), "new-key");
}

#[test]
fn api_key_from_raw_round_trip() {
    let key = ApiKey::from_raw("abc-123");
    assert_eq!(key.get(), "abc-123");
}

#[test]
fn extract_api_key_takes_leftmost_match() {
    let body = bundle_body("first-key") + &bundle_body("second-key");
    let key = extract_api_key(&body).unwrap();
    assert_eq!(key.get(), "first-key");
}

#[test]
fn extract_api_key_requires_closing_quote() {
    let body = r#"gatewaySubscriptionKey:Q("unterminated"#;
    assert!(extract_api_key(body).is_err());
}
