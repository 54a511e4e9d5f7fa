use todo_api::config::{Config, DEFAULT_LEEWAY};
use todo_api::keys::{Jwk, KeyCache, KeySet};

fn key(kid: &str, alg: &str, n: &str) -> Jwk {
    Jwk {
        kid: kid.to_string(),
        alg: alg.to_string(),
        kty: "RSA".to_string(),
        n: n.to_string(),
        e: "AQAB".to_string(),
    }
}

fn config() -> Config {
    Config::new(
        "client-1".to_string(),
        "s3cr3t".to_string(),
        "eu-west-1_TestPool".to_string(),
        "eu-west-1".to_string(),
    )
}

#[test]
fn a_configuration_holds_what_it_was_given() {
    assert_eq!(
        config(),
        Config {
            client_id: "client-1".to_string(),
            client_secret: "s3cr3t".to_string(),
            user_pool_id: "eu-west-1_TestPool".to_string(),
            user_pool_region: "eu-west-1".to_string(),
            leeway: 5,
        }
    );
    assert_eq!(DEFAULT_LEEWAY, 5);
}

#[test]
fn leeway_can_be_set() {
    let strict = config().with_leeway(0);
    assert_eq!(strict.leeway, 0);
    assert_eq!(strict.client_id, "client-1");
    assert_eq!(strict.client_secret, "s3cr3t");
    assert_eq!(strict.user_pool_id, "eu-west-1_TestPool");
    assert_eq!(strict.user_pool_region, "eu-west-1");
}

#[test]
fn the_issuer_is_named_after_region_and_pool() {
    assert_eq!(
        config().issuer(),
        "https://cognito-idp.eu-west-1.amazonaws.com/eu-west-1_TestPool"
    );
}

#[test]
fn the_key_set_is_published_below_the_issuer() {
    assert_eq!(
        config().jwks_url(),
        "https://cognito-idp.eu-west-1.amazonaws.com/eu-west-1_TestPool/.well-known/jwks.json"
    );
}

#[test]
fn urls_of_an_empty_configuration() {
    let empty = Config::new(String::new(), String::new(), String::new(), String::new());
    assert_eq!(empty.issuer(), "https://cognito-idp..amazonaws.com/");
    assert_eq!(empty.jwks_url(), "https://cognito-idp..amazonaws.com//.well-known/jwks.json");
}

#[test]
fn a_key_is_found_by_its_id() {
    let keys = KeySet::new(vec![key("a", "RS256", "n-a"), key("b", "RS256", "n-b")]);
    assert_eq!(keys.len(), 2);
    assert_eq!(keys.find("a"), Some(&key("a", "RS256", "n-a")));
    assert_eq!(keys.find("b"), Some(&key("b", "RS256", "n-b")));
    assert_eq!(keys.find("c"), None);
    assert_eq!(keys.find(""), None);
    assert_eq!(keys.find("A"), None);
}

#[test]
fn nothing_is_found_in_an_empty_set() {
    let keys = KeySet::new(Vec::new());
    assert_eq!(keys.len(), 0);
    assert_eq!(keys.find("a"), None);
}

#[test]
fn the_last_key_of_an_id_wins() {
    let keys = KeySet::new(vec![
        key("a", "RS256", "first"),
        key("b", "RS256", "other"),
        key("a", "RS256", "second"),
    ]);
    assert_eq!(keys.find("a"), Some(&key("a", "RS256", "second")));
}

#[test]
fn keys_of_other_algorithms_are_passed_over() {
    let keys = KeySet::new(vec![
        key("a", "RS256", "usable"),
        key("a", "RS384", "later"),
        key("b", "ES256", "curve"),
    ]);
    assert_eq!(keys.len(), 3);
    assert_eq!(keys.find("a"), Some(&key("a", "RS256", "usable")));
    assert_eq!(keys.find("b"), None);
}

#[test]
fn a_new_cache_holds_nothing() {
    assert_eq!(KeyCache::new(None).current(0), None);
    assert_eq!(KeyCache::new(None).current(u64::MAX), None);
    assert_eq!(KeyCache::new(Some(60)).current(0), None);
}

#[test]
fn a_cache_without_time_to_live_keeps_its_set() {
    let mut cache = KeyCache::new(None);
    let keys = KeySet::new(vec![key("a", "RS256", "n-a")]);
    cache.install(keys.clone(), 1000);
    assert_eq!(cache.current(1000), Some(&keys));
    assert_eq!(cache.current(u64::MAX), Some(&keys));
    assert_eq!(cache.current(0), Some(&keys));
}

#[test]
fn a_cached_set_expires_after_its_time_to_live() {
    let mut cache = KeyCache::new(Some(60));
    let keys = KeySet::new(vec![key("a", "RS256", "n-a")]);
    cache.install(keys.clone(), 1000);
    assert_eq!(cache.current(1000), Some(&keys));
    assert_eq!(cache.current(1059), Some(&keys));
    assert_eq!(cache.current(1060), None);
    assert_eq!(cache.current(5000), None);
    assert_eq!(cache.current(999), Some(&keys));
}

#[test]
fn a_time_to_live_of_zero_caches_nothing() {
    let mut cache = KeyCache::new(Some(0));
    cache.install(KeySet::new(vec![key("a", "RS256", "n-a")]), 1000);
    assert_eq!(cache.current(1000), None);
}

#[test]
fn a_time_to_live_near_the_end_of_time_does_not_wrap() {
    let mut cache = KeyCache::new(Some(u64::MAX));
    let keys = KeySet::new(vec![key("a", "RS256", "n-a")]);
    cache.install(keys.clone(), u64::MAX);
    assert_eq!(cache.current(u64::MAX), Some(&keys));
}

#[test]
fn installing_replaces_the_whole_set() {
    let mut cache = KeyCache::new(Some(60));
    let old = KeySet::new(vec![key("a", "RS256", "n-a"), key("b", "RS256", "n-b")]);
    let new = KeySet::new(vec![key("c", "RS256", "n-c")]);
    cache.install(old, 1000);
    cache.install(new.clone(), 2000);
    assert_eq!(cache.current(2000), Some(&new));
    assert_eq!(cache.current(2000).and_then(|keys| keys.find("a")), None);
    assert_eq!(cache.current(2059), Some(&new));
    assert_eq!(cache.current(2060), None);
}
