//! The request path: cache first, worker second, cache again on success.
//!
//! A query is cacheable exactly when the caller allows caching and the text
//! is not a command (a command begins with the reserved `/` prefix and
//! mutates worker state, so it must reach the worker every time).
//! `try_cached` is the consultation at the head of the path; `settle_query`
//! turns the bridge's outcome into the caller's structured response and, on
//! success, writes a cacheable result back.  The caller always receives a
//! well-formed response: a bridge failure becomes `success == false` with the
//! failure's text, never a fault.

use crate::bridge::CoreError;
use crate::bridge::spec_message;
use crate::cache::Cache;
use crate::cache::after_get;
use crate::cache::fresh_entry;
use crate::cache::lookup_at;
use crate::cache::lower_of;
use crate::cache::lowercase;
use crate::cache::query_cache_key;
use crate::cache::spec_cleanup_step;
use vstd::prelude::*;
use vstd::string::StrSliceExecFns;

verus! {

/// What a caller gets back for every query: an outcome, never a fault.
pub struct QueryResponse {
    pub success: bool,
    pub response: String,
    pub error: Option<String>,
}

/// The worker's externally visible status.
pub struct AgentStatus {
    pub running: bool,
    pub connected: bool,
}

/// Which optional capabilities are configured, judged from which keys the
/// environment carries.
pub struct ApiStatusResponse {
    pub intelligence: bool,
    pub memory: bool,
    pub market_data: bool,
    pub websocket: bool,
    pub token_swapping: bool,
}

/// Whether the query is a command: it begins with the reserved prefix.
pub open spec fn spec_is_command(q: Seq<char>) -> bool {
    q.len() > 0 && q[0] == '/'
}

/// Whether a query's result may be served from and written to the cache.
pub open spec fn spec_cacheable(q: Seq<char>, use_cache: bool) -> bool {
    use_cache && !spec_is_command(q)
}

/// Whether the query is a command.
pub fn is_command(query: &str) -> (r: bool)
    ensures
        r == spec_is_command(query@),
{
    if query.unicode_len() > 0 {
        query.get_char(0) == '/'
    } else {
        false
    }
}

/// Whether this call may touch the cache for this query.
pub fn is_cacheable(query: &str, use_cache: bool) -> (r: bool)
    ensures
        r == spec_cacheable(query@, use_cache),
{
    use_cache && !is_command(query)
}

/// The cache consultation at the head of the request path.  A query that is
/// not cacheable leaves the cache untouched and finds nothing; a cacheable
/// one is answered from an unexpired entry under its query key, exactly as a
/// read at `now` would be.
pub fn try_cached(cache: &mut Cache, query: &str, use_cache: bool, now: u64) -> (r: Option<
    QueryResponse,
>)
    requires
        old(cache).wf(),
    ensures
        final(cache).wf(),
        final(cache).spec_ttl_ms() == old(cache).spec_ttl_ms(),
        !spec_cacheable(query@, use_cache) ==> r is None && final(cache)@ == old(cache)@,
        spec_cacheable(query@, use_cache) ==> ({
            match lookup_at(old(cache)@, "query:"@ + query@, now) {
                Some(e) => r == Some(
                    (QueryResponse { success: true, response: e.value, error: None }),
                ) && final(cache)@ == old(cache)@,
                None => r is None && final(cache)@ == after_get(
                    old(cache)@,
                    "query:"@ + query@,
                    now,
                ),
            }
        }),
{
    if !is_cacheable(query, use_cache) {
        return None;
    }
    let key = query_cache_key(query);
    match cache.get_at(key.as_str(), now) {
        Some(v) => Some(QueryResponse { success: true, response: v, error: None }),
        None => None,
    }
}

/// Settles a bridge outcome into the caller's response.  Success is returned
/// as such and, for a cacheable query, written back under the query key with
/// the expiry stamped at `now`; failure becomes a structured outcome carrying
/// the failure's text, and the cache is untouched.
pub fn settle_query(
    cache: &mut Cache,
    query: &str,
    use_cache: bool,
    outcome: Result<String, CoreError>,
    now: u64,
) -> (r: QueryResponse)
    requires
        old(cache).wf(),
    ensures
        final(cache).wf(),
        final(cache).spec_ttl_ms() == old(cache).spec_ttl_ms(),
        match outcome {
            Ok(resp) => r == (QueryResponse { success: true, response: resp, error: None }) && (
            if spec_cacheable(query@, use_cache) {
                final(cache)@ == old(cache)@.insert(
                    "query:"@ + query@,
                    fresh_entry(resp, now, old(cache).spec_ttl_ms()),
                )
            } else {
                final(cache)@ == old(cache)@
            }),
            Err(e) => r.success == false && r.response@ == Seq::<char>::empty()
                && r.error.deep_view() == Some(spec_message(e@)) && final(cache)@ == old(cache)@,
        },
{
    match outcome {
        Ok(resp) => {
            if is_cacheable(query, use_cache) {
                let key = query_cache_key(query);
                cache.set_at(key, resp.clone(), now);
            }
            QueryResponse { success: true, response: resp, error: None }
        },
        Err(e) => QueryResponse {
            success: false,
            response: String::new(),
            error: Some(e.message()),
        },
    }
}

/// The worker's status as shown to callers; both fields mirror liveness.
pub fn agent_status(running: bool) -> (s: AgentStatus)
    ensures
        s.running == running,
        s.connected == running,
{
    AgentStatus { running, connected: running }
}

/// Whether the realtime-price flag enables live updates: an absent flag means
/// on; a present one counts only if it reads "true" once folded to lower
/// case.
pub open spec fn spec_realtime_enabled(flag: Option<Seq<char>>) -> bool {
    match flag {
        None => true,
        Some(s) => lower_of(s) == "true"@,
    }
}

/// Whether the realtime-price flag enables live updates.
pub fn realtime_enabled(flag: &Option<String>) -> (r: bool)
    ensures
        r == spec_realtime_enabled(flag.deep_view()),
{
    match flag {
        None => true,
        Some(s) => {
            let low = lowercase(s.as_str());
            let t: String = "true".to_owned();
            low == t
        },
    }
}

/// Judges which optional capabilities are configured from whether each key is
/// present and from the realtime-price flag.
pub fn api_status(
    openai: bool,
    coingecko: bool,
    titan: bool,
    realtime_flag: &Option<String>,
) -> (r: ApiStatusResponse)
    ensures
        r.intelligence == openai,
        r.memory == openai,
        r.market_data == coingecko,
        r.websocket == (coingecko && spec_realtime_enabled(realtime_flag.deep_view())),
        r.token_swapping == titan,
{
    let rt = realtime_enabled(realtime_flag);
    ApiStatusResponse {
        intelligence: openai,
        memory: openai,
        market_data: coingecko,
        websocket: coingecko && rt,
        token_swapping: titan,
    }
}

/// The reserved command that clears the worker's memory.  It is a command, so
/// the request path never touches the cache for it.
pub fn clear_memory_query() -> (q: String)
    ensures
        q@ == "/clear"@,
        spec_is_command(q@),
{
    proof {
        reveal_strlit("/clear");
    }
    "/clear".to_owned()
}

/// Sweeps the cache and confirms that it is operational.
pub fn cache_stats(cache: &mut Cache, now: u64) -> (r: String)
    requires
        old(cache).wf(),
    ensures
        final(cache).wf(),
        final(cache).spec_ttl_ms() == old(cache).spec_ttl_ms(),
        spec_cleanup_step(old(cache)@, now, final(cache)@),
        r@ == "Cache is operational"@,
{
    cache.cleanup_at(now);
    "Cache is operational".to_owned()
}

/// Law: a command query is never cacheable, whatever the caller asked: the
/// request path neither reads nor writes the cache for it.
pub proof fn lemma_command_bypasses_cache(q: Seq<char>, use_cache: bool)
    requires
        spec_is_command(q),
    ensures
        !spec_cacheable(q, use_cache),
{
}

} // verus!
