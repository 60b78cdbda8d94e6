use agent_bridge::cache::Cache;
use agent_bridge::cache::price_cache_key;
use agent_bridge::cache::query_cache_key;
use agent_bridge::cache::wallet_cache_key;

#[test]
fn cache_ttl_roundtrip() {
    let mut c = Cache::new(300);
    assert_eq!(c.ttl_millis(), 300_000);
    c.set_at("k".to_owned(), "v".to_owned(), 1_000);
    assert_eq!(c.get_at("k", 1_000), Some("v".to_owned()));
    assert_eq!(c.get_at("k", 300_999), Some("v".to_owned()));
    // from the expiry instant on, the entry is invisible and removed
    assert_eq!(c.get_at("k", 301_000), None);
    // removed outright: even an earlier clock finds nothing
    assert_eq!(c.get_at("k", 1_000), None);
}

#[test]
fn cleanup_after_expired_read_is_a_noop() {
    let mut c = Cache::new(1);
    c.set_at("k".to_owned(), "v".to_owned(), 0);
    assert_eq!(c.get_at("k", 2_000), None);
    c.cleanup_at(2_000);
    assert_eq!(c.get_at("k", 0), None);
}

#[test]
fn cache_overwrite_takes_second_value_and_expiry() {
    let mut c = Cache::new(10);
    c.set_at("k".to_owned(), "v1".to_owned(), 0);
    c.set_at("k".to_owned(), "v2".to_owned(), 5_000);
    assert_eq!(c.get_at("k", 9_999), Some("v2".to_owned()));
    // still alive past the first write's expiry: measured from the second
    assert_eq!(c.get_at("k", 14_999), Some("v2".to_owned()));
    assert_eq!(c.get_at("k", 15_000), None);
}

#[test]
fn cleanup_sweeps_exactly_the_expired() {
    let mut c = Cache::new(1);
    c.set_at("a".to_owned(), "1".to_owned(), 0);
    c.set_at("b".to_owned(), "2".to_owned(), 500);
    c.cleanup_at(1_200);
    assert_eq!(c.get_at("a", 0), None);
    assert_eq!(c.get_at("b", 1_200), Some("2".to_owned()));
}

#[test]
fn remove_and_clear_are_unconditional() {
    let mut c = Cache::new(300);
    c.set_at("a".to_owned(), "1".to_owned(), 0);
    c.set_at("b".to_owned(), "2".to_owned(), 0);
    c.remove("a");
    c.remove("missing");
    assert_eq!(c.get_at("a", 0), None);
    assert_eq!(c.get_at("b", 0), Some("2".to_owned()));
    c.clear();
    assert_eq!(c.get_at("b", 0), None);
}

#[test]
fn clock_backed_operations() {
    let mut c = Cache::new(300);
    c.set("k".to_owned(), "v".to_owned());
    assert_eq!(c.get("k"), Some("v".to_owned()));
    c.cleanup();
    assert_eq!(c.get("k"), Some("v".to_owned()));
    c.clear();
    assert_eq!(c.get("k"), None);
}

#[test]
fn key_helpers_prefix_and_fold() {
    assert_eq!(query_cache_key("what is tea"), "query:what is tea");
    // symbols are folded to lower case; the wrapper must really fold
    assert_eq!(price_cache_key("BTC"), "price:btc");
    assert_eq!(price_cache_key("eth"), "price:eth");
    assert_eq!(wallet_cache_key("0xAbC"), "wallet:0xAbC");
}
