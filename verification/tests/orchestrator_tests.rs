use agent_bridge::bridge::CoreError;
use agent_bridge::cache::Cache;
use agent_bridge::orchestrator::agent_status;
use agent_bridge::orchestrator::api_status;
use agent_bridge::orchestrator::cache_stats;
use agent_bridge::orchestrator::clear_memory_query;
use agent_bridge::orchestrator::is_cacheable;
use agent_bridge::orchestrator::is_command;
use agent_bridge::orchestrator::settle_query;
use agent_bridge::orchestrator::try_cached;

#[test]
fn command_query_bypasses_cache() {
    let mut c = Cache::new(300);
    // pre-populate the command's own key to show it is not even read
    c.set_at("query:/clear".to_owned(), "stale".to_owned(), 0);
    let r = try_cached(&mut c, "/clear", true, 0);
    assert!(r.is_none());
    let settled = settle_query(&mut c, "/clear", true, Ok("memory cleared".to_owned()), 0);
    assert!(settled.success);
    assert_eq!(settled.response, "memory cleared");
    // nothing was written back: the stale pre-populated entry is untouched
    assert_eq!(c.get_at("query:/clear", 0), Some("stale".to_owned()));
}

#[test]
fn clear_memory_is_a_command() {
    let q = clear_memory_query();
    assert_eq!(q, "/clear");
    assert!(is_command(q.as_str()));
}

#[test]
fn cacheable_flow_round_trip() {
    let mut c = Cache::new(300);
    assert!(try_cached(&mut c, "price of tea", true, 0).is_none());
    let r = settle_query(&mut c, "price of tea", true, Ok("42".to_owned()), 0);
    assert!(r.success);
    assert_eq!(r.response, "42");
    assert!(r.error.is_none());
    // a later call is served from the cache
    let hit = try_cached(&mut c, "price of tea", true, 1_000).expect("expected a cache hit");
    assert!(hit.success);
    assert_eq!(hit.response, "42");
    assert!(hit.error.is_none());
    // the caller can opt out of the cache
    assert!(try_cached(&mut c, "price of tea", false, 1_000).is_none());
    // and the entry expires with the store's time-to-live
    assert!(try_cached(&mut c, "price of tea", true, 300_000).is_none());
}

#[test]
fn failure_becomes_a_structured_outcome() {
    let mut c = Cache::new(300);
    let r = settle_query(
        &mut c,
        "what broke",
        true,
        Err(CoreError::AgentError("boom".to_owned())),
        0,
    );
    assert!(!r.success);
    assert_eq!(r.response, "");
    assert_eq!(r.error, Some("Agent error: boom".to_owned()));
    // a failure is never cached
    assert!(try_cached(&mut c, "what broke", true, 0).is_none());
}

#[test]
fn cacheability_cases() {
    assert!(is_cacheable("hello", true));
    assert!(!is_cacheable("/balances", true));
    assert!(!is_cacheable("hello", false));
    assert!(is_cacheable("", true));
    assert!(!is_command(""));
    assert!(is_command("/"));
}

#[test]
fn agent_status_mirrors_liveness() {
    let up = agent_status(true);
    assert!(up.running && up.connected);
    let down = agent_status(false);
    assert!(!down.running && !down.connected);
}

#[test]
fn api_status_combines_keys_and_flag() {
    let r = api_status(true, true, false, &None);
    assert!(r.intelligence && r.memory && r.market_data && r.websocket);
    assert!(!r.token_swapping);
    // the flag is folded to lower case before the comparison
    let shouting = api_status(false, true, true, &Some("TRUE".to_owned()));
    assert!(shouting.websocket && !shouting.intelligence && shouting.token_swapping);
    let off = api_status(true, true, true, &Some("false".to_owned()));
    assert!(!off.websocket);
    let no_market = api_status(true, false, true, &None);
    assert!(!no_market.websocket && !no_market.market_data);
}

#[test]
fn cache_stats_sweeps_and_confirms() {
    let mut c = Cache::new(1);
    c.set_at("a".to_owned(), "1".to_owned(), 0);
    let msg = cache_stats(&mut c, 5_000);
    assert_eq!(msg, "Cache is operational");
    assert_eq!(c.get_at("a", 0), None);
}
