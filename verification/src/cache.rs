//! A key/value store with one fixed time-to-live for every entry.
//!
//! Entries are stamped with an absolute expiry at write time and are never
//! returned once that instant has passed: a read that finds an expired entry
//! removes it, and `cleanup` sweeps every expired entry at once.  All
//! time-dependent operations exist in two forms: one that takes the current
//! time in milliseconds as an argument and carries an exact contract, and one
//! under the store's traditional name that reads the system clock and then
//! behaves as the first for some clock value.

use vstd::hash_map::StringHashMap;
use vstd::prelude::*;
use vstd::string::StringExecFns;

verus! {

/// One stored value together with the absolute instant (milliseconds) at
/// which it ceases to be visible.
pub struct CacheEntry {
    pub value: String,
    pub expires_at: u64,
}

/// The expiry stamped on a value written at `now` under time-to-live `ttl`,
/// saturating at the largest representable instant.
pub open spec fn stamp(now: u64, ttl: u64) -> u64 {
    if now + ttl <= u64::MAX {
        (now + ttl) as u64
    } else {
        u64::MAX
    }
}

/// The entry that a write of `value` at time `now_w` produces.
pub open spec fn fresh_entry(value: String, now_w: u64, ttl: u64) -> CacheEntry {
    CacheEntry { value: value, expires_at: stamp(now_w, ttl) }
}

/// What a read of `key` at time `now` finds: the entry, if present and not
/// yet expired.
pub open spec fn lookup_at(m: Map<Seq<char>, CacheEntry>, key: Seq<char>, now: u64) -> Option<
    CacheEntry,
> {
    if m.contains_key(key) && now < m[key].expires_at {
        Some(m[key])
    } else {
        None
    }
}

/// The store left behind by a read of `key` at time `now`: unchanged, except
/// that an entry found expired has been removed.
pub open spec fn after_get(m: Map<Seq<char>, CacheEntry>, key: Seq<char>, now: u64) -> Map<
    Seq<char>,
    CacheEntry,
> {
    if m.contains_key(key) && now >= m[key].expires_at {
        m.remove(key)
    } else {
        m
    }
}

/// Whether some element of `keys` reads `k`.
pub open spec fn key_listed(keys: Seq<String>, k: Seq<char>) -> bool {
    exists|i: int| 0 <= i < keys.len() && #[trigger] keys[i]@ == k
}

/// A string-keyed store whose entries all expire one fixed time-to-live
/// after they are written.
pub struct Cache {
    store: StringHashMap<CacheEntry>,
    keys: Vec<String>,
    ttl_ms: u64,
}

impl View for Cache {
    type V = Map<Seq<char>, CacheEntry>;

    closed spec fn view(&self) -> Map<Seq<char>, CacheEntry> {
        self.store@
    }
}

impl Cache {
    /// Every key of the store is recorded in the bookkeeping vector, so that
    /// a sweep can visit the whole store.
    pub closed spec fn wf(&self) -> bool {
        forall|k: Seq<char>|
            #[trigger] self.store@.contains_key(k) ==> key_listed(self.keys@, k)
    }

    /// The fixed time-to-live of this store, in milliseconds.
    pub closed spec fn spec_ttl_ms(&self) -> u64 {
        self.ttl_ms
    }

    /// Creates an empty store whose entries will live `ttl_seconds` seconds.
    pub fn new(ttl_seconds: u64) -> (c: Cache)
        requires
            ttl_seconds <= u64::MAX / 1000,
        ensures
            c.wf(),
            c@ == Map::<Seq<char>, CacheEntry>::empty(),
            c.spec_ttl_ms() == ttl_seconds * 1000,
    {
        Cache { store: StringHashMap::new(), keys: Vec::new(), ttl_ms: ttl_seconds * 1000 }
    }

    /// The store's time-to-live in milliseconds.
    pub fn ttl_millis(&self) -> (t: u64)
        ensures
            t == self.spec_ttl_ms(),
    {
        self.ttl_ms
    }

    /// Inserts or overwrites `key`, stamping the expiry from the given time.
    pub fn set_at(&mut self, key: String, value: String, now: u64)
        requires
            old(self).wf(),
        ensures
            final(self).wf(),
            final(self).spec_ttl_ms() == old(self).spec_ttl_ms(),
            final(self)@ == old(self)@.insert(key@, fresh_entry(value, now, old(self).spec_ttl_ms())),
    {
        let expires_at: u64 = if now <= u64::MAX - self.ttl_ms {
            now + self.ttl_ms
        } else {
            u64::MAX
        };
        let ghost key_view = key@;
        let had = self.store.contains_key(key.as_str());
        if !had {
            self.keys.push(key.clone());
        }
        self.store.insert(key, CacheEntry { value, expires_at });
        proof {
            assert forall|k: Seq<char>|
                #[trigger] self.store@.contains_key(k) implies key_listed(self.keys@, k) by {
                if !had && k == key_view {
                    assert(self.keys@[self.keys@.len() - 1]@ == k);
                } else {
                    assert(old(self).store@.contains_key(k));
                    let i = choose|i: int|
                        0 <= i < old(self).keys@.len() && #[trigger] old(self).keys@[i]@ == k;
                    assert(self.keys@[i]@ == k);
                }
            }
        }
    }

    /// Returns the value under `key` if it is present and has not expired at
    /// the given time; an entry found expired is removed.
    pub fn get_at(&mut self, key: &str, now: u64) -> (r: Option<String>)
        requires
            old(self).wf(),
        ensures
            final(self).wf(),
            final(self).spec_ttl_ms() == old(self).spec_ttl_ms(),
            ({
                match lookup_at(old(self)@, key@, now) {
                    Some(e) => r == Some(e.value) && final(self)@ == old(self)@,
                    None => r is None && final(self)@ == after_get(old(self)@, key@, now),
                }
            }),
    {
        let expired: bool = match self.store.get(key) {
            Some(e) => {
                if now < e.expires_at {
                    return Some(e.value.clone());
                }
                true
            },
            None => false,
        };
        if expired {
            self.store.remove(key);
        }
        None
    }

    /// Removes `key` unconditionally; absence is not an error.
    pub fn remove(&mut self, key: &str)
        requires
            old(self).wf(),
        ensures
            final(self).wf(),
            final(self).spec_ttl_ms() == old(self).spec_ttl_ms(),
            final(self)@ == old(self)@.remove(key@),
    {
        self.store.remove(key);
    }

    /// Removes every entry.
    pub fn clear(&mut self)
        requires
            old(self).wf(),
        ensures
            final(self).wf(),
            final(self).spec_ttl_ms() == old(self).spec_ttl_ms(),
            final(self)@ == Map::<Seq<char>, CacheEntry>::empty(),
    {
        self.store.clear();
        self.keys.clear();
    }

    /// Sweeps the store at the given time: exactly the unexpired entries
    /// survive, unchanged.
    pub fn cleanup_at(&mut self, now: u64)
        requires
            old(self).wf(),
        ensures
            final(self).wf(),
            final(self).spec_ttl_ms() == old(self).spec_ttl_ms(),
            spec_cleanup_step(old(self)@, now, final(self)@),
    {
        let n: usize = self.keys.len();
        let mut i: usize = 0;
        while i < n
            invariant
                n == self.keys@.len(),
                i <= n,
                self.ttl_ms == old(self).ttl_ms,
                self.keys == old(self).keys,
                forall|k: Seq<char>|
                    #[trigger] self.store@.contains_key(k) ==> old(self).store@.contains_key(k)
                        && self.store@[k] == old(self).store@[k],
                forall|k: Seq<char>|
                    old(self).store@.contains_key(k) && now < old(self).store@[k].expires_at
                        ==> #[trigger] self.store@.contains_key(k),
                forall|j: int|
                    0 <= j < i && #[trigger] self.store@.contains_key(self.keys@[j]@) ==> now
                        < self.store@[self.keys@[j]@].expires_at,
            decreases n - i,
        {
            let k = self.keys[i].clone();
            let dead: bool = match self.store.get(k.as_str()) {
                Some(e) => now >= e.expires_at,
                None => false,
            };
            if dead {
                self.store.remove(k.as_str());
            }
            i += 1;
        }
        proof {
            assert forall|k: Seq<char>| #[trigger] self.store@.contains_key(k) implies (old(
                self,
            ).store@.contains_key(k) && now < old(self).store@[k].expires_at) by {
                assert(old(self).store@.contains_key(k));
                let j = choose|j: int|
                    0 <= j < old(self).keys@.len() && #[trigger] old(self).keys@[j]@ == k;
                assert(self.keys@[j]@ == k);
            }
        }
        let kept = retained_keys(&self.keys, &self.store);
        self.keys = kept;
        proof {
            assert forall|k: Seq<char>|
                #[trigger] self.store@.contains_key(k) implies key_listed(self.keys@, k) by {
                assert(old(self).store@.contains_key(k));
                let j = choose|j: int|
                    0 <= j < old(self).keys@.len() && #[trigger] old(self).keys@[j]@ == k;
                assert(key_listed(old(self).keys@, k));
            }
        }
    }

    /// Reads the system clock and behaves as `get_at` at that instant.
    pub fn get(&mut self, key: &str) -> (r: Option<String>)
        requires
            old(self).wf(),
        ensures
            final(self).wf(),
            final(self).spec_ttl_ms() == old(self).spec_ttl_ms(),
            exists|now: u64| #[trigger] spec_get_step(old(self)@, key@, now, r, final(self)@),
    {
        let now: u64 = now_millis();
        let r = self.get_at(key, now);
        proof {
            assert(spec_get_step(old(self)@, key@, now, r, self@));
        }
        r
    }

    /// Reads the system clock and behaves as `set_at` at that instant.
    pub fn set(&mut self, key: String, value: String)
        requires
            old(self).wf(),
        ensures
            final(self).wf(),
            final(self).spec_ttl_ms() == old(self).spec_ttl_ms(),
            exists|now: u64|
                final(self)@ == old(self)@.insert(
                    key@,
                    #[trigger] fresh_entry(value, now, old(self).spec_ttl_ms()),
                ),
    {
        let ghost key_view = key@;
        let ghost value_snap = value;
        let now: u64 = now_millis();
        self.set_at(key, value, now);
        proof {
            assert(self@ == old(self)@.insert(
                key_view,
                fresh_entry(value_snap, now, old(self).spec_ttl_ms()),
            ));
        }
    }

    /// Reads the system clock and behaves as `cleanup_at` at that instant.
    pub fn cleanup(&mut self)
        requires
            old(self).wf(),
        ensures
            final(self).wf(),
            final(self).spec_ttl_ms() == old(self).spec_ttl_ms(),
            exists|now: u64| #[trigger] spec_cleanup_step(old(self)@, now, final(self)@),
    {
        let now: u64 = now_millis();
        self.cleanup_at(now);
        proof {
            assert(spec_cleanup_step(old(self)@, now, self@));
        }
    }
}

/// Relates a store before and after one read of `key` at time `now`.
pub open spec fn spec_get_step(
    pre: Map<Seq<char>, CacheEntry>,
    key: Seq<char>,
    now: u64,
    r: Option<String>,
    post: Map<Seq<char>, CacheEntry>,
) -> bool {
    match lookup_at(pre, key, now) {
        Some(e) => r == Some(e.value) && post == pre,
        None => r is None && post == after_get(pre, key, now),
    }
}

/// Relates a store before and after one sweep at time `now`.
pub open spec fn spec_cleanup_step(
    pre: Map<Seq<char>, CacheEntry>,
    now: u64,
    post: Map<Seq<char>, CacheEntry>,
) -> bool {
    &&& forall|k: Seq<char>|
        #[trigger] post.contains_key(k) <==> (pre.contains_key(k) && now < pre[k].expires_at)
    &&& forall|k: Seq<char>| #[trigger] post.contains_key(k) ==> post[k] == pre[k]
}

/// The keys of `keys` that are still present in `store`, so that every key of
/// the store remains recorded.
fn retained_keys(keys: &Vec<String>, store: &StringHashMap<CacheEntry>) -> (kept: Vec<String>)
    ensures
        forall|k: Seq<char>|
            #[trigger] store@.contains_key(k) && key_listed(keys@, k) ==> key_listed(kept@, k),
{
    let mut kept: Vec<String> = Vec::new();
    let mut i: usize = 0;
    while i < keys.len()
        invariant
            i <= keys@.len(),
            forall|k: Seq<char>|
                #[trigger] store@.contains_key(k) && key_listed(keys@.take(i as int), k)
                    ==> key_listed(kept@, k),
        decreases keys@.len() - i,
    {
        let ghost kept_snap = kept@;
        let k = &keys[i];
        if store.contains_key(k.as_str()) {
            kept.push(k.clone());
        }
        i += 1;
        proof {
            assert forall|k2: Seq<char>|
                #[trigger] store@.contains_key(k2) && key_listed(
                    keys@.take(i as int),
                    k2,
                ) implies key_listed(kept@, k2) by {
                let j = choose|j: int|
                    0 <= j < keys@.take(i as int).len() && #[trigger] keys@.take(i as int)[j]@
                        == k2;
                if j == i as int - 1 {
                    assert(keys@[i as int - 1]@ == k2);
                    assert(kept@[kept@.len() - 1]@ == k2);
                } else {
                    assert(keys@.take(i as int - 1)[j]@ == k2);
                    assert(key_listed(keys@.take(i as int - 1), k2));
                    assert(key_listed(kept_snap, k2));
                    let m = choose|m: int|
                        0 <= m < kept_snap.len() && #[trigger] kept_snap[m]@ == k2;
                    assert(kept@[m]@ == k2);
                }
            }
        }
    }
    proof {
        assert(keys@.take(keys@.len() as int) =~= keys@);
    }
    kept
}

/// Relies on std::time::SystemTime: the instant now, as milliseconds since
/// the Unix epoch.  Nothing is promised of the value: every caller's contract
/// holds whatever the clock returned.
#[verifier::external_body]
fn now_millis() -> u64 {
    match std::time::SystemTime::now().duration_since(std::time::UNIX_EPOCH) {
        Ok(d) => d.as_millis() as u64,
        Err(_) => 0,
    }
}

/// What str::to_lowercase returns, as a function of the characters alone.
pub uninterp spec fn lower_of(s: Seq<char>) -> Seq<char>;

/// Relies on str::to_lowercase: the result depends on the characters alone.
#[verifier::external_body]
pub(crate) fn lowercase(s: &str) -> (r: String)
    ensures
        r@ == lower_of(s@),
{
    s.to_lowercase()
}

/// The key under which a query's response is stored.
pub fn query_cache_key(query: &str) -> (r: String)
    ensures
        r@ == "query:"@ + query@,
{
    let mut s: String = "query:".to_owned();
    s.append(query);
    s
}

/// The key under which a symbol's price is stored; symbols are folded to
/// lower case so that spellings share one entry.
pub fn price_cache_key(symbol: &str) -> (r: String)
    ensures
        r@ == "price:"@ + lower_of(symbol@),
{
    let mut s: String = "price:".to_owned();
    let low = lowercase(symbol);
    s.append(low.as_str());
    s
}

/// The key under which a wallet's balances are stored.
pub fn wallet_cache_key(address: &str) -> (r: String)
    ensures
        r@ == "wallet:"@ + address@,
{
    let mut s: String = "wallet:".to_owned();
    s.append(address);
    s
}

/// Law: a value written at `now_w` is readable, exactly as written, at every
/// instant before `now_w + ttl`; from `now_w + ttl` on it is invisible, and a
/// read then removes it outright.  An expiry past the largest representable
/// instant saturates there, so the one instant `u64::MAX` itself reads
/// nothing even under an unsaturated budget: the readable clause leaves that
/// single instant out.
pub proof fn lemma_cache_ttl(
    m: Map<Seq<char>, CacheEntry>,
    key: Seq<char>,
    value: String,
    now_w: u64,
    ttl: u64,
    now_r: u64,
)
    ensures
        now_r < stamp(now_w, ttl) ==> lookup_at(
            m.insert(key, fresh_entry(value, now_w, ttl)),
            key,
            now_r,
        ) == Some(fresh_entry(value, now_w, ttl)),
        now_r >= stamp(now_w, ttl) ==> lookup_at(
            m.insert(key, fresh_entry(value, now_w, ttl)),
            key,
            now_r,
        ) is None,
        now_r >= stamp(now_w, ttl) ==> !after_get(
            m.insert(key, fresh_entry(value, now_w, ttl)),
            key,
            now_r,
        ).contains_key(key),
        now_r < u64::MAX && now_r < now_w + ttl ==> lookup_at(
            m.insert(key, fresh_entry(value, now_w, ttl)),
            key,
            now_r,
        ) == Some(fresh_entry(value, now_w, ttl)),
        now_r >= now_w + ttl ==> lookup_at(
            m.insert(key, fresh_entry(value, now_w, ttl)),
            key,
            now_r,
        ) is None,
{
}

/// Law: writing a key twice leaves exactly the second value, with the expiry
/// measured from the second write — readable before `now2 + ttl` even past
/// the first write's expiry, invisible from `now2 + ttl` on.  As for the
/// time-to-live law, the single instant `u64::MAX` is left out of the
/// readable clause, since a saturated expiry ends there.
pub proof fn lemma_cache_overwrite(
    m: Map<Seq<char>, CacheEntry>,
    key: Seq<char>,
    v1: String,
    now1: u64,
    v2: String,
    now2: u64,
    ttl: u64,
    now_r: u64,
)
    ensures
        m.insert(key, fresh_entry(v1, now1, ttl)).insert(key, fresh_entry(v2, now2, ttl))
            == m.insert(key, fresh_entry(v2, now2, ttl)),
        now_r < stamp(now2, ttl) ==> lookup_at(
            m.insert(key, fresh_entry(v1, now1, ttl)).insert(key, fresh_entry(v2, now2, ttl)),
            key,
            now_r,
        ) == Some(fresh_entry(v2, now2, ttl)),
        now_r >= stamp(now2, ttl) ==> lookup_at(
            m.insert(key, fresh_entry(v1, now1, ttl)).insert(key, fresh_entry(v2, now2, ttl)),
            key,
            now_r,
        ) is None,
        now_r < u64::MAX && now_r < now2 + ttl ==> lookup_at(
            m.insert(key, fresh_entry(v1, now1, ttl)).insert(key, fresh_entry(v2, now2, ttl)),
            key,
            now_r,
        ) == Some(fresh_entry(v2, now2, ttl)),
        now_r >= now2 + ttl ==> lookup_at(
            m.insert(key, fresh_entry(v1, now1, ttl)).insert(key, fresh_entry(v2, now2, ttl)),
            key,
            now_r,
        ) is None,
{
    assert(m.insert(key, fresh_entry(v1, now1, ttl)).insert(key, fresh_entry(v2, now2, ttl))
        =~= m.insert(key, fresh_entry(v2, now2, ttl)));
}

} // verus!
